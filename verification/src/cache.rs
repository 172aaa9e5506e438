//! Where rehearsals live on disk, and what they are named.
//!
//! ```text
//! <cache root>/                     e.g. ~/.cache/git-rehearse
//! └── <repo id>/                    git-city-3f2a1c9d5b7e4a60
//!     └── <rehearsal id>/           1786248000-00
//!         ├── meta.json
//!         ├── no-hooks/             empty, on purpose (see sandbox)
//!         └── sandbox/              the shadow clone
//! ```
//!
//! These are the naming and lookup rules, without a home directory.

use vstd::prelude::*;

use crate::compose::cat3;
use crate::error::{Error, Fault};
use crate::number::{hex, hex_digit, show_hex};
use crate::paths::{
    absolute, display, displayed, file_name, file_name_of, inside, is_absolute, join_path,
};
use crate::text::{bytes_of, chars_of, part, Text};

verus! {

/// Escape hatch for tests and for anyone who wants rehearsals somewhere else.
/// Used verbatim as the cache root: a caller who names a directory means that
/// directory.
pub const CACHE_ENV: &'static str = "GIT_REHEARSE_CACHE_DIR";

/// The base of the cache root, where the environment names one: a usable
/// `XDG_CACHE_HOME`, which is an absolute one, and else the platform default.
pub open spec fn base_of(xdg: Option<Text>, platform: Option<Text>) -> Option<Text> {
    match xdg {
        Some(dir) => if is_absolute(dir) {
            Some(dir)
        } else {
            platform
        },
        None => platform,
    }
}

/// The cache root: the override verbatim where it is not empty, and else our
/// own directory inside the base.
pub open spec fn root_of(
    override_dir: Option<Text>,
    xdg: Option<Text>,
    platform: Option<Text>,
) -> Option<Text> {
    if override_dir is Some && override_dir->0.len() > 0 {
        override_dir
    } else {
        match base_of(xdg, platform) {
            Some(base) => Some(inside(base, "git-rehearse"@)),
            None => None,
        }
    }
}

/// The cache root that the environment names: `GIT_REHEARSE_CACHE_DIR`, then
/// `XDG_CACHE_HOME`, then the platform default.
pub fn root_from(
    override_dir: Option<String>,
    xdg_cache_home: Option<String>,
    platform_default: Option<String>,
) -> (root: Result<String, Error>)
    ensures
        match root {
            Ok(root) => root_of(
                override_dir.deep_view(),
                xdg_cache_home.deep_view(),
                platform_default.deep_view(),
            ) == Some(root@),
            Err(error) => {
                &&& error.deep_view() == Fault::NoCacheDir
                &&& root_of(
                    override_dir.deep_view(),
                    xdg_cache_home.deep_view(),
                    platform_default.deep_view(),
                ) is None
            },
        },
{
    if let Some(dir) = &override_dir {
        if !dir.as_str().is_empty() {
            return Ok(dir.clone());
        }
    }
    let base = match xdg_cache_home {
        Some(dir) => if absolute(&dir) {
            Some(dir)
        } else {
            platform_default
        },
        None => platform_default,
    };
    match base {
        Some(base) => Ok(join_path(&base, "git-rehearse")),
        None => Err(Error::NoCacheDir),
    }
}

/// Whether a character is an ASCII letter or digit.
pub open spec fn is_plain(c: char) -> bool {
    'a' <= c <= 'z' || 'A' <= c <= 'Z' || '0' <= c <= '9'
}

/// A character as it stands in a slug: letters and digits in lower case, a dash
/// for anything else.
pub open spec fn slug_char(c: char) -> char {
    if 'A' <= c <= 'Z' {
        ((c as u32) + 32) as char
    } else if is_plain(c) {
        c
    } else {
        '-'
    }
}

/// A text without the dashes at its end.
pub open spec fn undashed_end(s: Text) -> Text
    decreases s.len(),
{
    if s.len() > 0 && s.last() == '-' {
        undashed_end(s.drop_last())
    } else {
        s
    }
}

/// A text without the dashes at its start.
pub open spec fn undashed_start(s: Text) -> Text
    decreases s.len(),
{
    if s.len() > 0 && s[0] == '-' {
        undashed_start(s.drop_first())
    } else {
        s
    }
}

/// The start of a text, up to `most` characters.
pub open spec fn at_most(s: Text, most: nat) -> Text {
    if s.len() <= most {
        s
    } else {
        s.take(most as int)
    }
}

/// The readable part of a repository's cache name.
pub open spec fn slug_of(path: Text) -> Text {
    match file_name_of(path) {
        Some(name) => undashed_start(
            undashed_end(at_most(displayed(name), 32).map_values(|c: char| slug_char(c))),
        ),
        None => Seq::empty(),
    }
}

/// FNV-1a, 64-bit.
pub open spec fn fnv1a(bytes: Seq<u8>) -> u64
    decreases bytes.len(),
{
    if bytes.len() == 0 {
        0xcbf2_9ce4_8422_2325
    } else {
        (((fnv1a(bytes.drop_last()) ^ bytes.last() as u64) * 0x0000_0100_0000_01b3)
            % 0x1_0000_0000_0000_0000) as u64
    }
}

/// A repository's cache name: its slug, or `repo` where nothing of the name is
/// left, and the hash of the whole path, as it is shown, in sixteen digits.
pub open spec fn id_of(path: Text) -> Text {
    (if slug_of(path).len() == 0 {
        "repo"@
    } else {
        slug_of(path)
    }) + "-"@ + hex(fnv1a(vstd::utf8::encode_utf8(displayed(path))) as nat, 16)
}

/// FNV-1a, 64-bit: stable across releases, which is what a directory name has
/// to be, and not a cryptographic hash.
pub fn fnv1a64(bytes: &Vec<u8>) -> (hash: u64)
    ensures
        hash == fnv1a(bytes@),
{
    let mut hash: u64 = 0xcbf2_9ce4_8422_2325;
    let mut i: usize = 0;
    while i < bytes.len()
        invariant
            i <= bytes@.len(),
            hash == fnv1a(bytes@.take(i as int)),
        decreases bytes@.len() - i,
    {
        assert(bytes@.take(i + 1).drop_last() =~= bytes@.take(i as int));
        hash = (hash ^ (bytes[i] as u64)).wrapping_mul(0x0000_0100_0000_01b3);
        i = i + 1;
    }
    assert(bytes@.take(bytes@.len() as int) =~= bytes@);
    hash
}

/// The slug of a path.
fn slug(path: &str) -> (slug: String)
    ensures
        slug@ == slug_of(path@),
{
    match file_name(path) {
        Some(name) => {
            let name = display(&name);
            let chars = chars_of(&name);
            let mut kept: Vec<char> = Vec::new();
            let ghost mapped = at_most(name@, 32).map_values(|c: char| slug_char(c));
            let mut i: usize = 0;
            while i < chars.len() && i < 32
                invariant
                    i <= chars@.len(),
                    i <= 32,
                    chars@ == name@,
                    mapped == at_most(name@, 32).map_values(|c: char| slug_char(c)),
                    kept@ == mapped.take(i as int),
                decreases chars@.len() - i,
            {
                let c = chars[i];
                let slugged = if 'A' <= c && c <= 'Z' {
                    ((c as u8) + 32) as char
                } else if ('a' <= c && c <= 'z') || ('0' <= c && c <= '9') {
                    c
                } else {
                    '-'
                };
                assert(slugged == slug_char(c));
                kept.push(slugged);
                i = i + 1;
                assert(mapped.take(i as int) =~= mapped.take(i - 1).push(mapped[i - 1]));
            }
            assert(kept@ =~= mapped);
            let mut end = kept.len();
            assert(kept@.take(end as int) =~= kept@);
            while end > 0 && kept[end - 1] == '-'
                invariant
                    end <= kept@.len(),
                    undashed_end(kept@) == undashed_end(kept@.take(end as int)),
                decreases end,
            {
                assert(kept@.take(end as int).drop_last() =~= kept@.take(end - 1));
                end = end - 1;
            }
            let mut start: usize = 0;
            assert(kept@.subrange(0, end as int) =~= kept@.take(end as int));
            while start < end && kept[start] == '-'
                invariant
                    start <= end <= kept@.len(),
                    undashed_start(undashed_end(kept@)) == undashed_start(
                        kept@.subrange(start as int, end as int),
                    ),
                decreases end - start,
            {
                assert(kept@.subrange(start as int, end as int).drop_first() =~= kept@.subrange(
                    start + 1,
                    end as int,
                ));
                start = start + 1;
            }
            part(&kept, start, end)
        },
        None => {
            let nothing = String::new();
            assert(nothing@ =~= Seq::<char>::empty());
            nothing
        },
    }
}

/// A stable per-repository directory name: a readable slug plus a hash of the
/// canonical path, which is what actually distinguishes two checkouts of the
/// same project.
pub fn repo_id(canonical_repo: &str) -> (id: String)
    ensures
        id@ == id_of(canonical_repo@),
{
    let slug = slug(canonical_repo);
    let hash = show_hex(fnv1a64(&bytes_of(&display(canonical_repo))), 16);
    if slug.as_str().is_empty() {
        cat3("repo", "-", &hash)
    } else {
        cat3(&slug, "-", &hash)
    }
}

/// Whether a text is safe as a directory name: letters, digits and dashes.
pub open spec fn is_safe(s: Text) -> bool {
    forall|i: int| 0 <= i < s.len() ==> is_plain(#[trigger] s[i]) || s[i] == '-'
}

proof fn undashing_keeps(s: Text)
    requires
        is_safe(s),
    ensures
        is_safe(undashed_end(s)),
        is_safe(undashed_start(s)),
    decreases s.len(),
{
    if s.len() > 0 {
        assert(is_safe(s.drop_last()));
        assert(is_safe(s.drop_first()));
        undashing_keeps(s.drop_last());
        undashing_keeps(s.drop_first());
    }
}

proof fn hex_is_safe(n: nat, width: nat)
    ensures
        is_safe(hex(n, width)),
        hex(n, width).len() == width,
    decreases width,
{
    if width > 0 {
        hex_is_safe(n / 16, (width - 1) as nat);
        assert(is_plain(hex_digit(n % 16)));
    }
}

/// Every cache name is safe as a directory name, whatever the path.
pub proof fn repo_ids_are_safe(path: Text)
    ensures
        is_safe(id_of(path)),
{
    hex_is_safe(fnv1a(vstd::utf8::encode_utf8(displayed(path))) as nat, 16);
    reveal_strlit("repo");
    reveal_strlit("-");
    assert(is_safe("repo"@));
    if let Some(name) = file_name_of(path) {
        let mapped = at_most(displayed(name), 32).map_values(|c: char| slug_char(c));
        assert(is_safe(mapped));
        undashing_keeps(mapped);
        undashing_keeps(undashed_end(mapped));
    }
    assert(is_safe(slug_of(path)));
}

} // verus!
