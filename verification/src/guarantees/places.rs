//! Where things stand: which paths are below a directory.

use vstd::prelude::*;

use crate::parts::{cut_last, pieces, pieces_nonempty};
use crate::paths::{file_name_of, inside, is_absolute, last_of, tidy};
use crate::text::Text;

verus! {

/// How far a procedure may reach.
pub enum Reach {
    /// It changes nothing.
    Nowhere,
    /// It changes nothing that is not this directory or below it.
    Below(Text),
    /// It may change anything.
    Anywhere,
}

/// Whether a path has a component that leads up.
pub open spec fn climbs(path: Text) -> bool {
    pieces(path, '/').contains(".."@)
}

/// What every path below a directory starts with.
pub open spec fn opening(root: Text) -> Text {
    if root.len() == 0 || root.last() == '/' {
        root
    } else {
        root.push('/')
    }
}

/// Whether a path is a directory or written below it, component by component
/// and without a way up.
pub open spec fn is_below(path: Text, root: Text) -> bool {
    ||| path == root
    ||| opening(root).is_prefix_of(path) && !climbs(path.skip(opening(root).len() as int)) && (
    root.len() > 0 || !is_absolute(path))
}

/// Whether a path is within reach.
pub open spec fn within(path: Text, reach: Reach) -> bool {
    match reach {
        Reach::Nowhere => false,
        Reach::Below(root) => is_below(path, root),
        Reach::Anywhere => true,
    }
}

/// Whether what a path leads to from somewhere within reach is within reach.
pub open spec fn stays(path: Text, reach: Reach) -> bool {
    reach is Anywhere || (!is_absolute(path) && !climbs(path))
}

/// Whether a text is the name of something in a directory.
pub open spec fn is_name(name: Text) -> bool {
    name.len() > 0 && !name.contains('/') && name != "."@ && name != ".."@
}

/// Whether these are all names, unless everything is within reach.
pub open spec fn are_names(names: Seq<Text>, reach: Reach) -> bool {
    reach is Anywhere || forall|i: int| 0 <= i < names.len() ==> is_name(#[trigger] names[i])
}

proof fn pieces_add_up(head: Text, tail: Text)
    ensures
        pieces(head.push('/') + tail, '/') == pieces(head, '/') + pieces(tail, '/'),
    decreases tail.len(),
{
    let whole = head.push('/') + tail;
    pieces_nonempty(tail, '/');
    if tail.len() == 0 {
        assert(whole =~= head.push('/'));
        assert(whole.drop_last() =~= head);
        assert(pieces(whole, '/') =~= pieces(head, '/') + pieces(tail, '/'));
    } else {
        let rest = tail.drop_last();
        pieces_add_up(head, rest);
        pieces_nonempty(rest, '/');
        assert(whole.drop_last() =~= head.push('/') + rest);
        assert(pieces(whole, '/') =~= pieces(head, '/') + pieces(tail, '/'));
    }
}

/// One path behind another leads up where one of them does.
pub proof fn climbing_adds_up(head: Text, tail: Text)
    ensures
        climbs(head.push('/') + tail) == (climbs(head) || climbs(tail)),
{
    pieces_add_up(head, tail);
    let first = pieces(head, '/');
    let second = pieces(tail, '/');
    let both = first + second;
    if both.contains(".."@) {
        let i = choose|i: int| 0 <= i < both.len() && both[i] == ".."@;
        if i < first.len() {
            assert(first[i] == ".."@);
        } else {
            assert(second[i - first.len()] == ".."@);
        }
    }
    if first.contains(".."@) {
        let i = choose|i: int| 0 <= i < first.len() && first[i] == ".."@;
        assert(both[i] == ".."@);
    }
    if second.contains(".."@) {
        let i = choose|i: int| 0 <= i < second.len() && second[i] == ".."@;
        assert(both[i + first.len()] == ".."@);
    }
}

proof fn one_piece(name: Text)
    requires
        !name.contains('/'),
    ensures
        pieces(name, '/') == seq![name],
    decreases name.len(),
{
    if name.len() > 0 {
        assert(name.contains(name.last()));
        assert forall|i: int| 0 <= i < name.len() - 1 implies name.drop_last()[i] != '/' by {
            assert(name.contains(name[i]));
        }
        one_piece(name.drop_last());
        assert(name.drop_last().push(name.last()) =~= name);
        assert(pieces(name, '/') =~= seq![name]);
    } else {
        assert(name =~= Seq::empty());
    }
}

/// A name leads nowhere else.
pub proof fn names_stay(name: Text, reach: Reach)
    requires
        is_name(name),
    ensures
        stays(name, reach),
{
    one_piece(name);
    reveal_strlit("/");
    if is_absolute(name) {
        assert("/"@[0] == name[0]);
        assert(name.contains(name[0]));
    }
    if climbs(name) {
        assert(seq![name][0] == name);
    }
}

/// What is inside of something within reach is within reach too.
pub proof fn inside_is_within(head: Text, tail: Text, reach: Reach)
    requires
        within(head, reach),
        stays(tail, reach),
    ensures
        within(inside(head, tail), reach),
{
    reveal_strlit("/");
    assert("/"@ =~= seq!['/']);
    if let Reach::Below(root) = reach {
        let path = inside(head, tail);
        let open = opening(root);
        if head == root {
            if root.len() > 0 {
                assert(path =~= open + tail);
            } else {
                assert(path =~= tail);
            }
            assert(path.skip(open.len() as int) =~= tail);
            assert(open =~= path.take(open.len() as int));
        } else {
            let rest = head.skip(open.len() as int);
            assert(head =~= open + rest);
            assert(open =~= path.take(open.len() as int)) by {
                assert(open =~= head.take(open.len() as int));
            }
            let behind = path.skip(open.len() as int);
            if root.len() == 0 && head.len() > 0 && is_absolute(path) {
                assert(path[0] == head[0]);
                assert("/"@ =~= head.take(1));
            }
            if rest.len() == 0 {
                assert(behind =~= tail);
            } else if rest.last() == '/' {
                let earlier = rest.drop_last();
                assert(rest =~= earlier.push('/') + Seq::empty());
                climbing_adds_up(earlier, Seq::empty());
                climbing_adds_up(earlier, tail);
                assert(behind =~= earlier.push('/') + tail);
            } else {
                climbing_adds_up(rest, tail);
                assert(behind =~= rest.push('/') + tail);
            }
        }
    }
}

proof fn shorter_is_above(path: Text, upper: Text, lower: Text)
    requires
        upper.len() > 0,
        lower.len() > 0,
        opening(upper).is_prefix_of(path),
        opening(lower).is_prefix_of(path),
        !climbs(path.skip(opening(upper).len() as int)),
        opening(upper).len() <= opening(lower).len(),
    ensures
        is_below(lower, upper) || is_below(upper, lower),
{
    let first = opening(upper);
    let second = opening(lower);
    assert(first =~= second.take(first.len() as int)) by {
        assert(first =~= path.take(first.len() as int));
        assert(second =~= path.take(second.len() as int));
    }
    if first.len() == second.len() {
        assert(first =~= second);
        if upper.last() == '/' {
            if lower.last() != '/' {
                assert(upper.skip(second.len() as int) =~= Seq::empty());
                climbing_nowhere();
                assert(second =~= upper.take(second.len() as int));
            }
        } else if lower.last() == '/' {
            assert(lower.skip(first.len() as int) =~= Seq::empty());
            climbing_nowhere();
            assert(first =~= lower.take(first.len() as int));
        } else {
            assert(upper =~= first.drop_last());
            assert(lower =~= second.drop_last());
        }
    } else {
        // What of the lower directory stands below the upper one, without a
        // slash at its end.
        let middle = second.subrange(first.len() as int, second.len() - 1);
        let rest = path.skip(second.len() as int);
        assert(second.last() == '/');
        assert(path.skip(first.len() as int) =~= middle.push('/') + rest) by {
            assert(second =~= path.take(second.len() as int));
        }
        climbing_adds_up(middle, rest);
        assert(first =~= lower.take(first.len() as int));
        if lower.last() == '/' {
            assert(lower.skip(first.len() as int) =~= middle.push('/') + Seq::empty());
            climbing_nowhere();
            climbing_adds_up(middle, Seq::empty());
        } else {
            assert(lower.skip(first.len() as int) =~= middle);
        }
    }
}

proof fn climbing_nowhere()
    ensures
        !climbs(Seq::empty()),
{
    reveal_strlit("..");
    let none = pieces(Seq::<char>::empty(), '/');
    assert(none =~= seq![Seq::<char>::empty()]);
    assert(".."@.len() == 2);
    assert(!none.contains(".."@));
}

/// What is below something that is below a directory is below it too.
pub proof fn below_is_transitive(path: Text, middle: Text, root: Text)
    requires
        root.len() > 0,
        is_below(path, middle),
        is_below(middle, root),
    ensures
        is_below(path, root),
{
    if path != middle && middle != root {
        let open = opening(root);
        let above = opening(middle);
        let rest = path.skip(above.len() as int);
        let between = middle.skip(open.len() as int);
        assert(middle =~= open + between);
        assert(path =~= above + rest);
        assert(open =~= path.take(open.len() as int));
        let behind = path.skip(open.len() as int);
        if between.len() == 0 {
            assert(middle =~= open);
            assert(open.last() == '/');
            assert(behind =~= rest);
        } else if middle.last() == '/' {
            let earlier = between.drop_last();
            assert(between =~= earlier.push('/') + Seq::empty());
            climbing_adds_up(earlier, Seq::empty());
            climbing_adds_up(earlier, rest);
            assert(behind =~= earlier.push('/') + rest);
        } else {
            climbing_adds_up(between, rest);
            assert(behind =~= between.push('/') + rest);
        }
    }
}

/// No path is below two directories that stand apart.
pub proof fn nothing_is_below_both(path: Text, one: Text, other: Text)
    requires
        one.len() > 0,
        other.len() > 0,
        is_below(path, one),
        is_below(path, other),
    ensures
        is_below(one, other) || is_below(other, one),
{
    if path != one && path != other {
        if opening(one).len() <= opening(other).len() {
            shorter_is_above(path, one, other);
        } else {
            shorter_is_above(path, other, one);
        }
    }
}

/// What has a fixed name in a rehearsal or its sandbox is within reach with it.
pub proof fn fixed_names_stay(reach: Reach)
    ensures
        stays("meta.json"@, reach),
        stays("meta.json.tmp"@, reach),
        stays("sandbox"@, reach),
        stays("no-hooks"@, reach),
        stays(".git/config"@, reach),
        stays(".git/rr-cache"@, reach),
{
    reveal_strlit("meta.json");
    reveal_strlit("meta.json.tmp");
    reveal_strlit("sandbox");
    reveal_strlit("no-hooks");
    reveal_strlit(".git");
    reveal_strlit("config");
    reveal_strlit("rr-cache");
    reveal_strlit(".git/config");
    reveal_strlit(".git/rr-cache");
    reveal_strlit("/");
    reveal_strlit(".");
    reveal_strlit("..");
    assert("."@.len() == 1 && ".."@.len() == 2);
    assert("no-hooks"@.len() == 8);
    assert("config"@.len() == 6);
    names_stay("meta.json"@, reach);
    names_stay("meta.json.tmp"@, reach);
    names_stay("sandbox"@, reach);
    names_stay("no-hooks"@, reach);
    names_stay(".git"@, Reach::Nowhere);
    names_stay("config"@, Reach::Nowhere);
    names_stay("rr-cache"@, Reach::Nowhere);
    climbing_adds_up(".git"@, "config"@);
    climbing_adds_up(".git"@, "rr-cache"@);
    assert(".git/config"@ =~= ".git"@.push('/') + "config"@);
    assert(".git/rr-cache"@ =~= ".git"@.push('/') + "rr-cache"@);
    assert(!is_absolute(".git/config"@)) by {
        assert("/"@[0] != ".git/config"@[0]);
    }
    assert(!is_absolute(".git/rr-cache"@)) by {
        assert("/"@[0] != ".git/rr-cache"@[0]);
    }
}

proof fn cut_before_a_name(head: Text, name: Text)
    requires
        !name.contains('/'),
    ensures
        cut_last(head.push('/') + name, '/') == Some((head, name)),
    decreases name.len(),
{
    let path = head.push('/') + name;
    if name.len() == 0 {
        assert(path.drop_last() =~= head);
        assert(name =~= Seq::empty());
    } else {
        let rest = name.drop_last();
        assert(name.contains(name.last()));
        assert forall|i: int| 0 <= i < rest.len() implies rest[i] != '/' by {
            assert(name.contains(name[i]));
        }
        cut_before_a_name(head, rest);
        assert(path.drop_last() =~= head.push('/') + rest);
        assert(rest.push(name.last()) =~= name);
    }
}

proof fn a_name_is_not_cut(name: Text)
    requires
        !name.contains('/'),
    ensures
        cut_last(name, '/') is None,
    decreases name.len(),
{
    if name.len() > 0 {
        let rest = name.drop_last();
        assert(name.contains(name.last()));
        assert forall|i: int| 0 <= i < rest.len() implies rest[i] != '/' by {
            assert(name.contains(name[i]));
        }
        a_name_is_not_cut(rest);
    }
}

/// The last component of what a name leads to in a directory is that name.
pub proof fn names_come_last(dir: Text, name: Text)
    requires
        is_name(name),
    ensures
        file_name_of(inside(dir, name)) == Some(name),
{
    names_stay(name, Reach::Nowhere);
    reveal_strlit("/");
    reveal_strlit(".");
    assert("/"@ =~= seq!['/']);
    let path = inside(dir, name);
    assert(name.contains(name.last()));
    assert(path.last() == name.last());
    if name.len() > 1 {
        assert(name.contains(name[name.len() - 2]));
        assert(path[path.len() - 2] == name[name.len() - 2]);
    } else if name.last() == '.' {
        assert(name =~= "."@);
    }
    assert(tidy(path) == path);
    if dir.len() == 0 {
        a_name_is_not_cut(name);
    } else if dir.last() == '/' {
        assert(path =~= dir.drop_last().push('/') + name);
        cut_before_a_name(dir.drop_last(), name);
    } else {
        assert(path =~= dir.push('/') + name);
        cut_before_a_name(dir, name);
    }
    assert(last_of(path) == name);
}

} // verus!
