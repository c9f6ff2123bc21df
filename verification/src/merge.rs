//! Deep merge of a partial patch onto a document.
use crate::json::{
    Node, Tree, close, distinct_names, entries, get, into_list, lemma_inserted, names, no_members,
    open, tree,
};
use vstd::prelude::*;

verus! {

/// `base` with `patch` merged onto it: two objects are merged member by member,
/// and anything else is replaced by the patch.
pub open spec fn merged(base: Tree, patch: Tree) -> Tree
    decreases patch,
{
    match (base, patch) {
        (Tree::Object(old_members), Tree::Object(new_members)) => Tree::Object(
            Map::new(
                |name: Seq<char>|
                    old_members.contains_key(name) || new_members.contains_key(name),
                |name: Seq<char>|
                    if !new_members.contains_key(name) {
                        old_members[name]
                    } else if old_members.contains_key(name) {
                        merged(old_members[name], new_members[name])
                    } else {
                        new_members[name]
                    },
            ),
        ),
        _ => patch,
    }
}

/// Deep-merges `patch` onto `base`: arrays are replaced, objects are merged.
pub fn merge_json(base: serde_json::Value, patch: serde_json::Value) -> (result: serde_json::Value)
    ensures
        tree(result) == merged(tree(base), tree(patch)),
    decreases tree(patch),
{
    match (open(base), open(patch)) {
        (Node::Object(map), Node::Object(changes)) => {
            let mut map = map;
            let ghost before = entries(map);
            let ghost changed = entries(changes);
            let ghost goal = merged(Tree::Object(before), Tree::Object(changed)).members();
            let mut rest = into_list(changes);
            let ghost list = rest@;
            proof {
                lemma_inserted(no_members(), list);
                assert forall|name: Seq<char>| !names(list, name) implies goal.contains_key(name)
                    == before.contains_key(name) by {
                    assert(!changed.contains_key(name));
                }
            }
            while rest.len() > 0
                invariant
                    tree(patch) == Tree::Object(changed),
                    goal == merged(Tree::Object(before), Tree::Object(changed)).members(),
                    distinct_names(list),
                    rest.len() <= list.len(),
                    rest@ == list.take(rest.len() as int),
                    forall|i: int|
                        0 <= i < list.len() ==> changed.contains_key((#[trigger] list[i]).0@)
                            && changed[list[i].0@] == tree(list[i].1),
                    forall|name: Seq<char>| #[trigger]
                        names(rest@, name) ==> entries(map).contains_key(name)
                            == before.contains_key(name) && (before.contains_key(name) ==> entries(
                            map,
                        )[name] == before[name]),
                    forall|name: Seq<char>|
                        !#[trigger] names(rest@, name) ==> entries(map).contains_key(name)
                            == goal.contains_key(name) && (goal.contains_key(name) ==> entries(
                            map,
                        )[name] == goal[name]),
                decreases rest.len(),
            {
                let ghost pending = rest@;
                let ghost stage = entries(map);
                let last = rest.pop();
                if let Some((name, value)) = last {
                    let ghost key = name@;
                    proof {
                        assert(pending.last() == list[pending.len() - 1]);
                        assert(pending[pending.len() - 1].0@ == key);
                        assert(names(pending, key));
                        assert(rest@ =~= pending.drop_last());
                        lemma_last_name(pending);
                    }
                    let found = match get(&map, &name) {
                        Some(current) => Some(current.clone()),
                        None => None,
                    };
                    let next = match found {
                        Some(current) => merge_json(current, value),
                        None => value,
                    };
                    map.insert(name, next);
                    assert(tree(next) == goal[key]);
                    assert(entries(map) == stage.insert(key, tree(next)));
                }
            }
            assert forall|name: Seq<char>| #[trigger] entries(map).dom().contains(name)
                == goal.dom().contains(name) by {
                assert(!names(rest@, name));
            }
            assert forall|name: Seq<char>| #[trigger] entries(map).dom().contains(name) implies entries(
                map,
            )[name] == goal[name] by {
                assert(!names(rest@, name));
            }
            assert(entries(map) =~= goal);
            close(Node::Object(map))
        },
        (_, replacement) => close(replacement),
    }
}

/// Of a list without repeated names, the names before the last item are those
/// of the list but for the last.
proof fn lemma_last_name(list: Seq<(String, serde_json::Value)>)
    requires
        list.len() > 0,
        distinct_names(list),
    ensures
        forall|name: Seq<char>| #[trigger]
            names(list.drop_last(), name) <==> names(list, name) && name != list.last().0@,
{
    let front = list.drop_last();
    assert forall|name: Seq<char>| #[trigger] names(front, name) <==> names(list, name) && name
        != list.last().0@ by {
        if names(front, name) {
            let i = choose|i: int| 0 <= i < front.len() && (#[trigger] front[i]).0@ == name;
            assert(list[i] == front[i]);
            assert(list[i].0@ != list[list.len() - 1].0@);
        }
        if names(list, name) && name != list.last().0@ {
            let i = choose|i: int| 0 <= i < list.len() && (#[trigger] list[i]).0@ == name;
            assert(front[i] == list[i]);
        }
    }
}

// ---- laws ----

/// What stands in a document at a path of member names.
pub open spec fn at(document: Tree, path: Seq<Seq<char>>) -> Option<Tree>
    decreases path.len(),
{
    if path.len() == 0 {
        Some(document)
    } else if document.members().contains_key(path.first()) {
        at(document.members()[path.first()], path.drop_first())
    } else {
        None
    }
}

/// Whether a patch says anything about a path: it ends on the path, or goes on
/// along it.
pub open spec fn touches(patch: Tree, path: Seq<Seq<char>>) -> bool
    decreases path.len(),
{
    path.len() == 0 || !(patch is Object) || (patch.members().contains_key(path.first())
        && touches(patch.members()[path.first()], path.drop_first()))
}

/// A patch leaves alone every path that it says nothing about, whatever stands
/// there: it wipes no other edit.
pub proof fn merge_keeps_other_paths(base: Tree, patch: Tree, path: Seq<Seq<char>>)
    requires
        !touches(patch, path),
    ensures
        at(merged(base, patch), path) == at(base, path),
    decreases path.len(),
{
    let name = path.first();
    let rest = path.drop_first();
    if base is Object && patch.members().contains_key(name) {
        if base.members().contains_key(name) {
            merge_keeps_other_paths(base.members()[name], patch.members()[name], rest);
        } else {
            lemma_untouched_is_absent(patch.members()[name], rest);
        }
    } else if !(base is Object) {
        lemma_untouched_is_absent(patch, path);
    }
}

pub(crate) proof fn lemma_untouched_is_absent(patch: Tree, path: Seq<Seq<char>>)
    requires
        !touches(patch, path),
    ensures
        at(patch, path) is None,
    decreases path.len(),
{
    if patch.members().contains_key(path.first()) {
        lemma_untouched_is_absent(patch.members()[path.first()], path.drop_first());
    }
}

/// Every value in a patch that is not an object, an array among them, stands in
/// the merged document as it stands in the patch.
pub proof fn merge_sets_values(base: Tree, patch: Tree, path: Seq<Seq<char>>)
    requires
        at(patch, path) matches Some(value) && !(value is Object),
    ensures
        at(merged(base, patch), path) == at(patch, path),
    decreases path.len(),
{
    if path.len() > 0 && base is Object && base.members().contains_key(path.first()) {
        merge_sets_values(
            base.members()[path.first()],
            patch.members()[path.first()],
            path.drop_first(),
        );
    }
}

/// Merging adds nothing of its own: a path that leads somewhere in the merged
/// document leads somewhere in the base or in the patch.
pub proof fn merge_invents_nothing(base: Tree, patch: Tree, path: Seq<Seq<char>>)
    requires
        at(merged(base, patch), path) is Some,
    ensures
        at(base, path) is Some || at(patch, path) is Some,
    decreases path.len(),
{
    if path.len() > 0 && base is Object && patch is Object {
        let name = path.first();
        if base.members().contains_key(name) && patch.members().contains_key(name) {
            merge_invents_nothing(base.members()[name], patch.members()[name], path.drop_first());
        }
    }
}

/// An object without members is a patch that changes nothing in an object.
pub proof fn merge_of_nothing(members: Map<Seq<char>, Tree>)
    ensures
        merged(Tree::Object(members), Tree::Object(no_members())) == Tree::Object(members),
{
    assert(merged(Tree::Object(members), Tree::Object(no_members())).members() =~= members);
}

/// Sending the same patch a second time changes nothing.
pub proof fn merge_twice(base: Tree, patch: Tree)
    ensures
        merged(merged(base, patch), patch) == merged(base, patch),
    decreases patch,
{
    let once = merged(base, patch);
    if patch is Object {
        let members = once.members();
        let changes = patch.members();
        assert(merged(once, patch).members() =~= members) by {
            assert forall|name: Seq<char>| changes.contains_key(name) implies merged(
                members[name],
                changes[name],
            ) == members[name] by {
                if base is Object && base.members().contains_key(name) {
                    merge_twice(base.members()[name], changes[name]);
                } else {
                    merge_onto_itself(changes[name]);
                }
            }
        }
    }
}

/// A document merged onto itself stays as it is.
pub proof fn merge_onto_itself(document: Tree)
    ensures
        merged(document, document) == document,
    decreases document,
{
    if document is Object {
        let members = document.members();
        assert(merged(document, document).members() =~= members) by {
            assert forall|name: Seq<char>| members.contains_key(name) implies merged(
                members[name],
                members[name],
            ) == members[name] by {
                merge_onto_itself(members[name]);
            }
        }
    }
}

/// Where a patch has an object, the merged document has one too, whatever stood
/// there before.
pub proof fn merge_makes_objects(base: Tree, patch: Tree, path: Seq<Seq<char>>)
    requires
        at(patch, path) matches Some(value) && value is Object,
    ensures
        at(merged(base, patch), path) matches Some(value) && value is Object,
    decreases path.len(),
{
    if path.len() > 0 && base is Object && base.members().contains_key(path.first()) {
        merge_makes_objects(
            base.members()[path.first()],
            patch.members()[path.first()],
            path.drop_first(),
        );
    }
}

/// Where a patch ends on something that is no object, nothing stands below it in
/// the merged document: what it replaces is gone.
pub proof fn merge_replaces_whole(
    base: Tree,
    patch: Tree,
    path: Seq<Seq<char>>,
    below: Seq<Seq<char>>,
)
    requires
        at(patch, path) matches Some(value) && !(value is Object),
        below.len() > 0,
    ensures
        at(merged(base, patch), path + below) is None,
    decreases path.len(),
{
    merge_sets_values(base, patch, path);
    lemma_at_below(merged(base, patch), path, below);
}

proof fn lemma_at_below(document: Tree, path: Seq<Seq<char>>, below: Seq<Seq<char>>)
    requires
        at(document, path) matches Some(value) && !(value is Object),
        below.len() > 0,
    ensures
        at(document, path + below) is None,
    decreases path.len(),
{
    if path.len() > 0 {
        assert((path + below).drop_first() =~= path.drop_first() + below);
        lemma_at_below(document.members()[path.first()], path.drop_first(), below);
    } else {
        assert(path + below =~= below);
    }
}

/// Merging does to a document what a patch should do: what the patch says nothing
/// about stays; the values that it names are set; where it has an object there is
/// one; and nothing stands anywhere that stood in neither.
pub proof fn merging_changes_what_is_named_alone(
    base: serde_json::Value,
    patch: serde_json::Value,
    result: serde_json::Value,
    path: Seq<Seq<char>>,
)
    requires
        call_ensures(merge_json, (base, patch), result),
    ensures
        !touches(tree(patch), path) ==> at(tree(result), path) == at(tree(base), path),
        at(tree(patch), path) matches Some(value) ==> !(value is Object) ==> at(tree(result), path)
            == Some(value),
        at(tree(patch), path) matches Some(value) ==> value is Object ==> (at(tree(result), path)
            matches Some(after) && after is Object),
        at(tree(result), path) is Some ==> at(tree(base), path) is Some || at(tree(patch), path)
            is Some,
{
    if !touches(tree(patch), path) {
        merge_keeps_other_paths(tree(base), tree(patch), path);
    }
    if let Some(value) = at(tree(patch), path) {
        if value is Object {
            merge_makes_objects(tree(base), tree(patch), path);
        } else {
            merge_sets_values(tree(base), tree(patch), path);
        }
    }
    if at(tree(result), path) is Some {
        merge_invents_nothing(tree(base), tree(patch), path);
    }
}

} // verus!
