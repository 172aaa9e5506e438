//! What a batch of ref moves is as one transaction of git.
//!
//! Every command states the value it expects to find, so git verifies each of
//! them inside the ref store, where no window exists between checking and
//! writing. A ref that is to come into being is created and not updated from an
//! empty value, which git would read as not to be checked.

use vstd::prelude::*;

use crate::analyze::{RefMove, RefMoveModel};
use crate::compose::{cat5, cat7};
use crate::text::{copy_text, put, same, Text};

verus! {

/// One command of a ref transaction.
pub enum RefCommand {
    Update { name: Text, to: Text, from: Text },
    Create { name: Text, to: Text },
    Delete { name: Text, from: Text },
}

/// The command as git reads it.
pub open spec fn command_text(command: RefCommand) -> Text {
    match command {
        RefCommand::Update { name, to, from } => "update "@ + name + "\0"@ + to + "\0"@ + from
            + "\0"@,
        RefCommand::Create { name, to } => "create "@ + name + "\0"@ + to + "\0"@,
        RefCommand::Delete { name, from } => "delete "@ + name + "\0"@ + from + "\0"@,
    }
}

/// The command that makes a move, where it changes anything.
pub open spec fn command_of(moved: RefMoveModel) -> Option<RefCommand> {
    match (moved.before, moved.after) {
        (Some(before), Some(after)) => Some(
            RefCommand::Update { name: moved.name, to: after, from: before },
        ),
        (None, Some(after)) => Some(RefCommand::Create { name: moved.name, to: after }),
        (Some(before), None) => Some(RefCommand::Delete { name: moved.name, from: before }),
        (None, None) => None,
    }
}

/// The commands that make the moves. `HEAD` follows its branch; moving it
/// directly would detach it.
pub open spec fn commands_of(moves: Seq<RefMoveModel>) -> Seq<RefCommand>
    decreases moves.len(),
{
    if moves.len() == 0 {
        Seq::empty()
    } else {
        let earlier = commands_of(moves.drop_last());
        match command_of(moves.last()) {
            Some(command) => if moves.last().name == "HEAD"@ {
                earlier
            } else {
                earlier.push(command)
            },
            None => earlier,
        }
    }
}

/// The commands that make the moves, whatever the names.
pub open spec fn every_command_of(moves: Seq<RefMoveModel>) -> Seq<RefCommand>
    decreases moves.len(),
{
    if moves.len() == 0 {
        Seq::empty()
    } else {
        let earlier = every_command_of(moves.drop_last());
        match command_of(moves.last()) {
            Some(command) => earlier.push(command),
            None => earlier,
        }
    }
}

/// The commands as git reads them.
pub open spec fn commands_text(commands: Seq<RefCommand>) -> Text
    decreases commands.len(),
{
    if commands.len() == 0 {
        Seq::empty()
    } else {
        commands_text(commands.drop_last()) + command_text(commands.last())
    }
}

/// A move the other way.
pub open spec fn reversed_move(moved: RefMoveModel) -> RefMoveModel {
    RefMoveModel { name: moved.name, before: moved.after, after: moved.before }
}

/// The moves the other way.
pub open spec fn reversed_moves(moves: Seq<RefMoveModel>) -> Seq<RefMoveModel> {
    moves.map_values(|moved: RefMoveModel| reversed_move(moved))
}

/// Appends the command that makes a move, as git reads it.
fn append_command(commands: &mut String, moved: &RefMove)
    ensures
        final(commands)@ == match command_of(moved.deep_view()) {
            Some(command) => old(commands)@ + command_text(command),
            None => old(commands)@,
        },
{
    let name = &moved.name;
    match (&moved.before, &moved.after) {
        (Some(before), Some(after)) => commands.append(
            &cat7("update ", name, "\0", after, "\0", before, "\0"),
        ),
        (None, Some(after)) => commands.append(&cat5("create ", name, "\0", after, "\0")),
        (Some(before), None) => commands.append(&cat5("delete ", name, "\0", before, "\0")),
        (None, None) => {},
    }
}

/// The commands that make `moves`, as git reads them, those of `HEAD` left out.
pub fn payload(moves: &Vec<RefMove>) -> (commands: String)
    ensures
        commands@ == commands_text(commands_of(moves.deep_view())),
{
    let ghost all = moves.deep_view();
    let mut commands = String::new();
    let mut i: usize = 0;
    assert(all.take(0) =~= Seq::empty());
    assert(commands@ =~= Seq::<char>::empty());
    while i < moves.len()
        invariant
            i <= moves@.len(),
            all == moves.deep_view(),
            commands@ == commands_text(commands_of(all.take(i as int))),
        decreases moves@.len() - i,
    {
        let ghost now = all.take(i + 1);
        assert(now.drop_last() =~= all.take(i as int));
        assert(now.last() == moves[i as int].deep_view());
        let ghost earlier = commands_of(now.drop_last());
        if !same(&moves[i].name, "HEAD") {
            append_command(&mut commands, &moves[i]);
            assert(command_of(now.last()) is Some ==> commands_of(now).drop_last() =~= earlier);
        }
        i = i + 1;
    }
    assert(all.take(all.len() as int) =~= all);
    commands
}

/// The commands that make `moves`, as git reads them.
pub fn every_payload(moves: &Vec<RefMove>) -> (commands: String)
    ensures
        commands@ == commands_text(every_command_of(moves.deep_view())),
{
    let ghost all = moves.deep_view();
    let mut commands = String::new();
    let mut i: usize = 0;
    assert(all.take(0) =~= Seq::empty());
    assert(commands@ =~= Seq::<char>::empty());
    while i < moves.len()
        invariant
            i <= moves@.len(),
            all == moves.deep_view(),
            commands@ == commands_text(every_command_of(all.take(i as int))),
        decreases moves@.len() - i,
    {
        let ghost now = all.take(i + 1);
        assert(now.drop_last() =~= all.take(i as int));
        assert(now.last() == moves[i as int].deep_view());
        let ghost earlier = every_command_of(now.drop_last());
        append_command(&mut commands, &moves[i]);
        assert(command_of(now.last()) is Some ==> every_command_of(now).drop_last() =~= earlier);
        i = i + 1;
    }
    assert(all.take(all.len() as int) =~= all);
    commands
}

/// The moves the other way.
pub fn reverse(moves: &Vec<RefMove>) -> (reversed: Vec<RefMove>)
    ensures
        reversed.deep_view() == reversed_moves(moves.deep_view()),
{
    let ghost all = moves.deep_view();
    let mut reversed: Vec<RefMove> = Vec::new();
    let mut i: usize = 0;
    while i < moves.len()
        invariant
            i <= moves@.len(),
            all == moves.deep_view(),
            reversed.deep_view() == reversed_moves(all).take(i as int),
        decreases moves@.len() - i,
    {
        let moved = &moves[i];
        put(
            &mut reversed,
            RefMove {
                name: moved.name.clone(),
                before: copy_text(&moved.after),
                after: copy_text(&moved.before),
            },
        );
        i = i + 1;
        assert(reversed_moves(all).take(i as int) =~= reversed_moves(all).take(i - 1).push(
            reversed_moves(all)[i - 1],
        ));
    }
    assert(reversed_moves(all).take(all.len() as int) =~= reversed_moves(all));
    reversed
}

// ---------------------------------------------------------------------------
// What a transaction does to the refs
// ---------------------------------------------------------------------------
/// Where a name points in a ref store.
pub open spec fn at(store: Map<Text, Text>, name: Text) -> Option<Text> {
    if store.dom().contains(name) {
        Some(store[name])
    } else {
        None
    }
}

/// The store with a name pointing somewhere, or nowhere.
pub open spec fn pointed(store: Map<Text, Text>, name: Text, to: Option<Text>) -> Map<Text, Text> {
    match to {
        Some(object) => store.insert(name, object),
        None => store.remove(name),
    }
}

/// What git does on a command: it fails unless the ref is where the command
/// says.
pub open spec fn obeyed(store: Map<Text, Text>, command: RefCommand) -> Option<Map<Text, Text>> {
    match command {
        RefCommand::Update { name, to, from } => if at(store, name) == Some(from) {
            Some(pointed(store, name, Some(to)))
        } else {
            None
        },
        RefCommand::Create { name, to } => if at(store, name) is None {
            Some(pointed(store, name, Some(to)))
        } else {
            None
        },
        RefCommand::Delete { name, from } => if at(store, name) == Some(from) {
            Some(pointed(store, name, None))
        } else {
            None
        },
    }
}

/// What git does on a transaction: all of the commands, or none where one
/// fails.
pub open spec fn transacted(store: Map<Text, Text>, commands: Seq<RefCommand>) -> Option<
    Map<Text, Text>,
>
    decreases commands.len(),
{
    if commands.len() == 0 {
        Some(store)
    } else {
        match transacted(store, commands.drop_last()) {
            Some(store) => obeyed(store, commands.last()),
            None => None,
        }
    }
}

/// Whether no two moves are of the same ref, and none of `HEAD`.
pub open spec fn are_distinct(moves: Seq<RefMoveModel>) -> bool {
    &&& forall|i: int, j: int|
        0 <= i < j < moves.len() ==> (#[trigger] moves[i]).name != (#[trigger] moves[j]).name
    &&& forall|i: int| 0 <= i < moves.len() ==> (#[trigger] moves[i]).name != "HEAD"@
}

/// Whether every moved ref is where its move starts.
pub open spec fn all_start(store: Map<Text, Text>, moves: Seq<RefMoveModel>) -> bool {
    forall|i: int|
        0 <= i < moves.len() && command_of(moves[i]) is Some ==> at(
            store,
            (#[trigger] moves[i]).name,
        ) == moves[i].before
}

/// Whether a store is another with the moves made.
pub open spec fn is_moved(
    before: Map<Text, Text>,
    after: Map<Text, Text>,
    moves: Seq<RefMoveModel>,
) -> bool {
    &&& forall|i: int|
        0 <= i < moves.len() && command_of(moves[i]) is Some ==> at(
            after,
            (#[trigger] moves[i]).name,
        ) == moves[i].after
    &&& forall|name: Text|
        (forall|i: int|
            0 <= i < moves.len() && command_of(moves[i]) is Some ==> (#[trigger] moves[i]).name
                != name) ==> at(before, name) == #[trigger] at(after, name)
}

/// A transaction goes through exactly where every moved ref is where its move
/// starts, and then each is where its move ends and every other ref is where it
/// was.
pub proof fn transactions_move(store: Map<Text, Text>, moves: Seq<RefMoveModel>)
    requires
        are_distinct(moves),
    ensures
        transacted(store, commands_of(moves)) is Some <==> all_start(store, moves),
        transacted(store, commands_of(moves)) matches Some(after) ==> is_moved(store, after, moves),
    decreases moves.len(),
{
    if moves.len() > 0 {
        let rest = moves.drop_last();
        let last = moves.last();
        assert(moves[moves.len() - 1] == last);
        assert(are_distinct(rest)) by {
            assert forall|i: int, j: int| 0 <= i < j < rest.len() implies (#[trigger] rest[i]).name
                != (#[trigger] rest[j]).name by {
                assert(moves[i].name != moves[j].name);
            }
            assert forall|i: int| 0 <= i < rest.len() implies (#[trigger] rest[i]).name
                != "HEAD"@ by {
                assert(moves[i].name != "HEAD"@);
            }
        }
        transactions_move(store, rest);
        assert forall|i: int| 0 <= i < rest.len() implies (#[trigger] rest[i]).name
            != last.name by {
            assert(moves[i].name != moves[moves.len() - 1].name);
        }
        match command_of(last) {
            None => {
                assert(commands_of(moves) == commands_of(rest));
                assert(all_start(store, rest) ==> all_start(store, moves)) by {
                    assert forall|i: int|
                        0 <= i < moves.len() && command_of(moves[i]) is Some && all_start(
                            store,
                            rest,
                        ) implies at(store, (#[trigger] moves[i]).name) == moves[i].before by {
                        assert(rest[i] == moves[i]);
                    }
                }
                assert(all_start(store, moves) ==> all_start(store, rest)) by {
                    assert forall|i: int|
                        0 <= i < rest.len() && command_of(rest[i]) is Some && all_start(
                            store,
                            moves,
                        ) implies at(store, (#[trigger] rest[i]).name) == rest[i].before by {
                        assert(rest[i] == moves[i]);
                    }
                }
                if let Some(after) = transacted(store, commands_of(moves)) {
                    assert(is_moved(store, after, moves)) by {
                        assert forall|i: int|
                            0 <= i < moves.len() && command_of(moves[i]) is Some implies at(
                            after,
                            (#[trigger] moves[i]).name,
                        ) == moves[i].after by {
                            assert(rest[i] == moves[i]);
                        }
                        assert forall|name: Text|
                            (forall|i: int|
                                0 <= i < moves.len() && command_of(moves[i]) is Some ==> (
                                #[trigger] moves[i]).name != name) implies at(store, name)
                            == #[trigger] at(after, name) by {
                            assert forall|i: int|
                                0 <= i < rest.len() && command_of(rest[i]) is Some implies (
                            #[trigger] rest[i]).name != name by {
                                assert(rest[i] == moves[i]);
                            }
                        }
                    }
                }
            },
            Some(command) => {
                assert(commands_of(moves).drop_last() =~= commands_of(rest));
                assert(commands_of(moves).last() == command);
                if let Some(mid) = transacted(store, commands_of(rest)) {
                    assert(at(mid, last.name) == at(store, last.name)) by {
                        assert(forall|i: int|
                            0 <= i < rest.len() && command_of(rest[i]) is Some ==> (
                            #[trigger] rest[i]).name != last.name);
                    }
                    assert(obeyed(mid, command) is Some <==> at(store, last.name) == last.before);
                    assert forall|i: int|
                        0 <= i < moves.len() && command_of(moves[i]) is Some && at(
                            store,
                            last.name,
                        ) == last.before implies at(store, (#[trigger] moves[i]).name)
                        == moves[i].before by {
                        if i < rest.len() {
                            assert(rest[i] == moves[i]);
                        }
                    }
                    if let Some(after) = obeyed(mid, command) {
                        assert(after == pointed(mid, last.name, last.after));
                        assert(is_moved(store, after, moves)) by {
                            assert forall|i: int|
                                0 <= i < moves.len() && command_of(moves[i]) is Some implies at(
                                after,
                                (#[trigger] moves[i]).name,
                            ) == moves[i].after by {
                                if i < rest.len() {
                                    assert(rest[i] == moves[i]);
                                    assert(at(after, rest[i].name) == at(mid, rest[i].name));
                                }
                            }
                            assert forall|name: Text|
                                (forall|i: int|
                                    0 <= i < moves.len() && command_of(moves[i]) is Some ==> (
                                    #[trigger] moves[i]).name != name) implies at(store, name)
                                == #[trigger] at(after, name) by {
                                assert(moves[moves.len() - 1].name != name);
                                assert forall|i: int|
                                    0 <= i < rest.len() && command_of(rest[i]) is Some implies (
                                #[trigger] rest[i]).name != name by {
                                    assert(rest[i] == moves[i]);
                                }
                                assert(at(mid, name) == at(after, name));
                            }
                        }
                    }
                } else {
                    assert(!all_start(store, rest));
                    let i = choose|i: int|
                        0 <= i < rest.len() && command_of(rest[i]) is Some && at(
                            store,
                            (#[trigger] rest[i]).name,
                        ) != rest[i].before;
                    assert(moves[i] == rest[i]);
                }
                if all_start(store, moves) {
                    assert(all_start(store, rest)) by {
                        assert forall|i: int|
                            0 <= i < rest.len() && command_of(rest[i]) is Some implies at(
                            store,
                            (#[trigger] rest[i]).name,
                        ) == rest[i].before by {
                            assert(moves[i] == rest[i]);
                        }
                    }
                    assert(at(store, moves[moves.len() - 1].name) == moves[moves.len()
                        - 1].before);
                }
            },
        }
    }
}

/// Undoing what was done gives the refs back as they were: after the
/// transaction of the moves, that of the moves the other way goes through and
/// leads to the store from before.
pub proof fn there_and_back(store: Map<Text, Text>, moves: Seq<RefMoveModel>)
    requires
        are_distinct(moves),
        transacted(store, commands_of(moves)) is Some,
    ensures
        ({
            let after = transacted(store, commands_of(moves))->0;
            transacted(after, commands_of(reversed_moves(moves))) == Some(store)
        }),
{
    let after = transacted(store, commands_of(moves))->0;
    let back = reversed_moves(moves);
    transactions_move(store, moves);
    assert(are_distinct(back)) by {
        assert forall|i: int, j: int| 0 <= i < j < back.len() implies (#[trigger] back[i]).name
            != (#[trigger] back[j]).name by {
            assert(moves[i].name != moves[j].name);
        }
        assert forall|i: int| 0 <= i < back.len() implies (#[trigger] back[i]).name != "HEAD"@ by {
            assert(moves[i].name != "HEAD"@);
        }
    }
    transactions_move(after, back);
    assert(all_start(after, back)) by {
        assert forall|i: int| 0 <= i < back.len() && command_of(back[i]) is Some implies at(
            after,
            (#[trigger] back[i]).name,
        ) == back[i].before by {
            assert(command_of(moves[i]) is Some);
            assert(at(after, moves[i].name) == moves[i].after);
        }
    }
    let end = transacted(after, commands_of(back))->0;
    assert forall|name: Text| at(end, name) == at(store, name) by {
        if exists|i: int|
            0 <= i < moves.len() && command_of(moves[i]) is Some && (#[trigger] moves[i]).name
                == name {
            let i = choose|i: int|
                0 <= i < moves.len() && command_of(moves[i]) is Some && (
                #[trigger] moves[i]).name == name;
            assert(command_of(back[i]) is Some);
            assert(at(end, back[i].name) == back[i].after);
            assert(at(store, moves[i].name) == moves[i].before);
        } else {
            assert forall|i: int| 0 <= i < back.len() && command_of(back[i]) is Some implies (
            #[trigger] back[i]).name != name by {
                assert(command_of(moves[i]) is Some);
            }
            assert(at(store, name) == at(after, name));
            assert(at(after, name) == at(end, name));
        }
    }
    assert(end =~= store) by {
        assert forall|name: Text| end.dom().contains(name) == store.dom().contains(name) by {
            assert(at(end, name) == at(store, name));
        }
        assert forall|name: Text| end.dom().contains(name) implies end[name] == store[name] by {
            assert(at(end, name) == at(store, name));
        }
    }
}

} // verus!
