//! What holds of the commands taken together, stated over the same spec
//! functions as their contracts and proved from them.

use vstd::prelude::*;
use crate::dispatch::{
    spec_add_action, spec_add_listing, spec_add_path, spec_remove_action, spec_remove_listing,
    spec_say, spec_show_action, spec_show_lines, ActionView,
};
use crate::store::{
    as_map, has_name, lemma_place_of, lemma_put, lemma_put_all_same, lemma_without,
    names_distinct, place_of, put, put_all, without, Listing,
};
use crate::text::{spec_added_here, spec_entry_line, spec_not_found};

verus! {

/// Setting a name puts the pair of name and path into the listing, whatever
/// was there before.
pub proof fn lemma_put_holds_pair(s: Listing, name: Seq<char>, path: Seq<char>)
    requires
        names_distinct(s),
    ensures
        put(s, name, path).contains((name, path)),
        has_name(put(s, name, path), name),
{
    let t = put(s, name, path);
    if has_name(s, name) {
        assert(t[place_of(s, name)] == (name, path));
    } else {
        assert(t[s.len() as int] == (name, path));
    }
}

/// An add followed by a show: the table then holds the name with exactly the
/// path that was added, and the show prints the line of that pair.
pub proof fn law_add_then_show(
    add_args: Seq<Seq<char>>,
    cwd: Option<Seq<char>>,
    show_args: Seq<Seq<char>>,
    s: Listing,
)
    requires
        names_distinct(s),
        add_args.len() == 4,
        spec_add_path(add_args, cwd) is Some,
        show_args.len() == 2,
    ensures
        ({
            let name = add_args[2];
            let path = spec_add_path(add_args, cwd)->0;
            let after = spec_add_listing(add_args, cwd, s);
            &&& after.contains((name, path))
            &&& as_map(after).contains_key(name)
            &&& as_map(after)[name] == path
            &&& spec_show_action(show_args, after) == ActionView::Print(spec_show_lines(after))
            &&& spec_show_lines(after).contains(spec_entry_line(name, path))
        }),
{
    let name = add_args[2];
    let path = spec_add_path(add_args, cwd)->0;
    let after = spec_add_listing(add_args, cwd, s);
    lemma_put(s, name, path);
    lemma_put_holds_pair(s, name, path);
    let i = choose|i: int| 0 <= i < after.len() && after[i] == (name, path);
    assert(spec_show_lines(after)[i + 1] == spec_entry_line(name, path));
}

/// A remove after an add of the same name: the table no longer has the name,
/// and every line that a show then prints below the header is the line of an
/// entry with another name.
pub proof fn law_remove_after_add(
    add_args: Seq<Seq<char>>,
    cwd: Option<Seq<char>>,
    remove_args: Seq<Seq<char>>,
    s: Listing,
)
    requires
        names_distinct(s),
        add_args.len() == 4,
        remove_args.len() == 3,
        remove_args[2] == add_args[2],
    ensures
        ({
            let name = add_args[2];
            let after = spec_remove_listing(remove_args, spec_add_listing(add_args, cwd, s));
            &&& !has_name(after, name)
            &&& !as_map(after).contains_key(name)
            &&& spec_show_lines(after).len() == after.len() + 1
            &&& forall|i: int|
                0 <= i < after.len() ==> after[i].0 != name && #[trigger] spec_show_lines(after)[i
                    + 1] == spec_entry_line(after[i].0, after[i].1)
            &&& !has_name(s, name) && spec_add_path(add_args, cwd) is Some ==> after == s
        }),
{
    let name = add_args[2];
    let added = spec_add_listing(add_args, cwd, s);
    if spec_add_path(add_args, cwd) is Some {
        let path = spec_add_path(add_args, cwd)->0;
        lemma_put(s, name, path);
        lemma_put_holds_pair(s, name, path);
        if !has_name(s, name) {
            lemma_place_of(added, s.len() as int);
            assert(without(added, name) =~= s);
        }
    }
    lemma_without(added, name);
    let after = without(added, name);
    assert forall|i: int| 0 <= i < after.len() implies after[i].0 != name by {
        if after[i].0 == name {
            assert(has_name(after, name));
        }
    }
}

/// A remove of a name that the table does not have is reported as not found
/// and leaves the table as it is, however often it is repeated.
pub proof fn law_remove_absent(remove_args: Seq<Seq<char>>, s: Listing)
    requires
        remove_args.len() == 3,
        !has_name(s, remove_args[2]),
    ensures
        spec_remove_listing(remove_args, s) == s,
        spec_remove_action(remove_args, s) == spec_say(spec_not_found(remove_args[2])),
{
}

/// A second remove of the same name finds nothing and changes nothing.
pub proof fn law_remove_twice(remove_args: Seq<Seq<char>>, s: Listing)
    requires
        names_distinct(s),
        remove_args.len() == 3,
    ensures
        ({
            let once = spec_remove_listing(remove_args, s);
            &&& spec_remove_listing(remove_args, once) == once
            &&& spec_remove_action(remove_args, once) == spec_say(spec_not_found(remove_args[2]))
        }),
{
    lemma_without(s, remove_args[2]);
}

/// An add whose path reads `pwd` stores the working directory under the name,
/// and confirms it as such.
pub proof fn law_add_here_stores_directory(args: Seq<Seq<char>>, here: Seq<char>, s: Listing)
    requires
        names_distinct(s),
        args.len() == 4,
        args[3] == "pwd"@,
    ensures
        ({
            let after = spec_add_listing(args, Some(here), s);
            &&& after == put(s, args[2], here)
            &&& as_map(after).contains_key(args[2])
            &&& as_map(after)[args[2]] == here
            &&& here != "pwd"@ ==> !after.contains((args[2], "pwd"@))
            &&& spec_add_action(args, Some(here)) == ActionView::Save(spec_added_here(args[2]))
        }),
{
    let name = args[2];
    let after = put(s, name, here);
    lemma_put(s, name, here);
    if here != "pwd"@ && after.contains((name, "pwd"@)) {
        let i = choose|i: int| 0 <= i < after.len() && after[i] == (name, "pwd"@);
        lemma_place_of(after, i);
    }
}

/// An add under a name that the table has replaces the path and nothing
/// else: the listing is as long as before, every other entry is where and what
/// it was, and exactly one entry has the name.
pub proof fn law_overwrite(args: Seq<Seq<char>>, cwd: Option<Seq<char>>, s: Listing)
    requires
        names_distinct(s),
        args.len() == 4,
        spec_add_path(args, cwd) is Some,
        has_name(s, args[2]),
    ensures
        ({
            let name = args[2];
            let path = spec_add_path(args, cwd)->0;
            let after = spec_add_listing(args, cwd, s);
            &&& after.len() == s.len()
            &&& as_map(after) == as_map(s).insert(name, path)
            &&& as_map(after).dom() == as_map(s).dom()
            &&& forall|i: int| 0 <= i < s.len() && s[i].0 != name ==> #[trigger] after[i] == s[i]
            &&& forall|i: int|
                0 <= i < after.len() ==> ((#[trigger] after[i]).0 == name <==> i == place_of(
                    s,
                    name,
                ))
            &&& after[place_of(s, name)] == (name, path)
        }),
{
    let name = args[2];
    let path = spec_add_path(args, cwd)->0;
    let after = put(s, name, path);
    lemma_put(s, name, path);
    assert(as_map(s).contains_key(name));
    assert(as_map(s).insert(name, path).dom() =~= as_map(s).dom());
}

/// A table made anew of the entries of a table lists the same entries in the
/// same order.
pub proof fn law_entries_rebuild(s: Listing)
    requires
        names_distinct(s),
    ensures
        put_all(s) == s,
        as_map(put_all(s)) == as_map(s),
{
    lemma_put_all_same(s);
}

} // verus!
