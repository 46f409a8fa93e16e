//! Paths on a remote host. They are joined with slashes; names and places are taken from them by
//! the rules of the machine that this runs on.

use crate::text::{ends_with, joined, joined3, same_text};
use vstd::prelude::*;
use vstd::string::*;

verus! {

/// The path of a name in a directory.
pub open spec fn joined_path(parent: Seq<char>, name: Seq<char>) -> Seq<char> {
    if parent.len() > 0 && parent.last() == '/' {
        parent + name
    } else {
        parent + seq!['/'] + name
    }
}

/// The path of a name in a directory.
pub fn join_remote_path(parent: &str, name: &str) -> (r: String)
    ensures
        r@ == joined_path(parent@, name@),
{
    proof {
        reveal_strlit("/");
        assert("/"@ =~= seq!['/']);
    }
    if same_text(parent, "/") {
        joined("/", name)
    } else if ends_with(parent, "/") {
        proof {
            assert(parent@.subrange(parent@.len() - 1, parent@.len() as int)[0] == parent@.last());
        }
        joined(parent, name)
    } else {
        proof {
            if parent@.len() > 0 && parent@.last() == '/' {
                assert(parent@.subrange(parent@.len() - 1, parent@.len() as int) =~= "/"@);
            }
        }
        joined3(parent, "/", name)
    }
}

/// A path without the slashes at its end, and without the `.` components there.
pub open spec fn without_tail(path: Seq<char>) -> Seq<char>
    decreases path.len(),
{
    if path.len() > 0 && path.last() == '/' {
        without_tail(path.drop_last())
    } else if path.len() > 1 && path.last() == '.' && path[path.len() - 2] == '/' {
        without_tail(path.drop_last())
    } else {
        path
    }
}

/// How many characters of a path stand before its last component.
pub open spec fn last_start(path: Seq<char>) -> int
    decreases path.len(),
{
    if path.len() == 0 || path.last() == '/' {
        path.len() as int
    } else {
        last_start(path.drop_last())
    }
}

/// Whether a text can be a name in a directory: it is not empty, holds no slash, and is not `.`
/// or `..`.
pub open spec fn plain_name(name: Seq<char>) -> bool {
    name.len() > 0 && !name.contains('/') && name != seq!['.'] && name != seq!['.', '.']
}

/// The last component of a path whose components slashes part, where it is a name: not where it
/// is the root, `.` or `..`.
pub open spec fn file_name(path: Seq<char>) -> Option<Seq<char>> {
    let body = without_tail(path);
    let name = body.skip(last_start(body));
    if name.len() == 0 || name == seq!['.'] || name == seq!['.', '.'] {
        None
    } else {
        Some(name)
    }
}

/// The path without its last component, where it has one and slashes part the components.
pub open spec fn parent_path(path: Seq<char>) -> Option<Seq<char>> {
    let body = without_tail(path);
    if body.len() == 0 {
        None
    } else {
        let head = body.take(last_start(body));
        if head.len() > 0 && without_tail(head).len() == 0 {
            Some(seq!['/'])
        } else {
            Some(without_tail(head))
        }
    }
}

/// Whether a path has the same components on every machine: slashes part them everywhere, while
/// a backslash, a drive at the beginning (a character and a colon) and two slashes at the
/// beginning mean something on some machines only. A colon elsewhere is part of a name.
pub open spec fn portable(path: Seq<char>) -> bool {
    !path.contains('\\') && !(path.len() > 1 && path[0] != '/' && path[1] == ':') && !(path.len()
        > 1 && path[0] == '/' && path[1] == '/')
}

/// Whether the name of a path is the same on every machine.
pub open spec fn plainly_named(path: Seq<char>) -> bool {
    portable(path) && without_tail(path) != seq!['.']
}

/// Whether the place of a path is the same text on every machine: the path is empty or the
/// root, or ends in a name whose directory has no slashes or `.` components at its end.
pub open spec fn plainly_placed(path: Seq<char>) -> bool {
    let body = without_tail(path);
    let head = body.take(last_start(body));
    let directory = head.drop_last();
    portable(path) && (path.len() == 0 || path == seq!['/'] || (plain_name(
        body.skip(last_start(body)),
    ) && (head.len() <= 1 || (without_tail(directory) == directory && directory != seq!['.']))))
}

/// Whether a name can be that of a path.
pub open spec fn name_fits(path: Seq<char>, name: Option<Seq<char>>) -> bool {
    plainly_named(path) ==> name == file_name(path)
}

/// Whether a parent can be that of a path.
pub open spec fn parent_fits(path: Seq<char>, parent: Option<Seq<char>>) -> bool {
    plainly_placed(path) ==> parent == parent_path(path)
}

/// `Path::file_name` of std: the final component of a path, where it is a name and not the
/// root or `..`. Separators at the end and `.` components behind another are passed over. The
/// machine says whether a backslash separates components and whether a path can begin with a
/// drive or with two separators, so the name is stated of every path that has none of these.
#[verifier::external_body]
pub(crate) fn path_name(path: &str) -> (r: Option<String>)
    ensures
        name_fits(path@, crate::json::string_view(r)),
{
    std::path::Path::new(path).file_name().map(|name| name.to_string_lossy().to_string())
}

/// `Path::parent` of std: a path without its final component, where it has one. It is the empty
/// path for a name alone, and there is none for the empty path and the root. The machine says
/// whether a backslash separates components and whether a path can begin with a drive or with
/// two separators, so the place is stated of paths that have none of these, and nothing of a
/// directory that is written with separators or `.` components at its end.
#[verifier::external_body]
pub(crate) fn path_parent(path: &str) -> (r: Option<String>)
    ensures
        parent_fits(path@, crate::json::string_view(r)),
{
    std::path::Path::new(path).parent().and_then(|parent| parent.to_str()).map(
        |parent| parent.to_owned(),
    )
}

// ---------------------------------------------------------------------------------------------
// Laws
// ---------------------------------------------------------------------------------------------

/// A path ends in the name that it was joined with.
pub proof fn joined_path_ends_in_its_name(parent: Seq<char>, name: Seq<char>)
    requires
        plain_name(name),
    ensures
        file_name(joined_path(parent, name)) == Some(name),
{
    let path = joined_path(parent, name);
    let head = path.take(path.len() - name.len());
    assert(path =~= head + name);
    assert(head.last() == '/');
    lemma_no_tail(head, name);
    lemma_last_start(head, name);
    assert(path.skip(head.len() as int) =~= name);
}

/// A name in a directory lies in that directory: the parent of the joined path is the directory
/// itself, without slashes and `.` components at its end, or the root.
pub proof fn joined_path_lies_in_its_parent(parent: Seq<char>, name: Seq<char>)
    requires
        plain_name(name),
    ensures
        parent_path(joined_path(parent, name)) == Some(
            if without_tail(parent).len() == 0 {
                seq!['/']
            } else {
                without_tail(parent)
            },
        ),
{
    let path = joined_path(parent, name);
    let head = path.take(path.len() - name.len());
    assert(path =~= head + name);
    assert(head.last() == '/');
    lemma_no_tail(head, name);
    lemma_last_start(head, name);
    assert(path.take(head.len() as int) =~= head);
    if parent.len() > 0 && parent.last() == '/' {
        assert(head =~= parent);
    } else {
        assert(head.drop_last() =~= parent);
    }
}

proof fn lemma_no_tail(head: Seq<char>, name: Seq<char>)
    requires
        plain_name(name),
        head.len() > 0,
        head.last() == '/',
    ensures
        without_tail(head + name) == head + name,
{
    let path = head + name;
    assert(path.last() == name.last());
    assert(name.contains(name.last()));
    if name.last() == '.' {
        if name.len() == 1 {
            assert(name =~= seq!['.']);
        } else {
            assert(path[path.len() - 2] == name[name.len() - 2]);
            assert(name.contains(name[name.len() - 2]));
        }
    }
}

proof fn lemma_last_start(head: Seq<char>, name: Seq<char>)
    requires
        !name.contains('/'),
        head.len() > 0,
        head.last() == '/',
    ensures
        last_start(head + name) == head.len(),
    decreases name.len(),
{
    let path = head + name;
    if name.len() == 0 {
        assert(path =~= head);
    } else {
        assert(path.last() == name.last());
        assert(name.contains(name.last()));
        assert(path.drop_last() =~= head + name.drop_last());
        assert forall|c: char| name.drop_last().contains(c) implies name.contains(c) by {
            let i = choose|i: int| 0 <= i < name.drop_last().len() && name.drop_last()[i] == c;
            assert(name[i] == c);
        }
        lemma_last_start(head, name.drop_last());
    }
}

/// The last component of a path that has one holds no slash.
pub proof fn lemma_file_names_are_plain(path: Seq<char>)
    requires
        file_name(path) is Some,
    ensures
        plain_name(file_name(path)->0),
{
    let body = without_tail(path);
    lemma_last_start_bounds(body);
    let name = body.skip(last_start(body));
    if name.contains('/') {
        let i = choose|i: int| 0 <= i < name.len() && name[i] == '/';
        assert(body[last_start(body) + i] == '/');
    }
}

/// The last component begins behind the last slash.
proof fn lemma_last_start_bounds(path: Seq<char>)
    ensures
        0 <= last_start(path) <= path.len(),
        forall|i: int| last_start(path) <= i < path.len() ==> path[i] != '/',
    decreases path.len(),
{
    if path.len() > 0 && path.last() != '/' {
        lemma_last_start_bounds(path.drop_last());
        assert forall|i: int| last_start(path) <= i < path.len() implies path[i] != '/' by {
            if i < path.len() - 1 {
                assert(path.drop_last()[i] == path[i]);
            }
        }
    }
}

/// What has no slashes and `.` components at its end stays as it is without them.
proof fn lemma_without_tail_settles(path: Seq<char>)
    ensures
        without_tail(without_tail(path)) == without_tail(path),
    decreases path.len(),
{
    if path.len() > 0 && path.last() == '/' {
        lemma_without_tail_settles(path.drop_last());
    } else if path.len() > 1 && path.last() == '.' && path[path.len() - 2] == '/' {
        lemma_without_tail_settles(path.drop_last());
    }
}

/// The parent of a path, unless it is the root, has no slashes and `.` components at its end;
/// the root without them is nothing.
pub proof fn lemma_parent_has_no_tail(path: Seq<char>)
    requires
        parent_path(path) matches Some(parent) && parent.len() > 0,
    ensures
        parent_path(path)->0 == if without_tail(parent_path(path)->0).len() == 0 {
            seq!['/']
        } else {
            without_tail(parent_path(path)->0)
        },
{
    let body = without_tail(path);
    let head = body.take(last_start(body));
    lemma_without_tail_settles(head);
    if head.len() > 0 && without_tail(head).len() == 0 {
        assert(seq!['/'].drop_last() =~= Seq::empty());
        assert(without_tail(seq!['/']) == without_tail(Seq::<char>::empty()));
    }
}

/// A path that was joined from a name and a directory has its name everywhere, where every
/// machine reads it alike.
pub proof fn lemma_joined_path_is_named(parent: Seq<char>, name: Seq<char>)
    requires
        plain_name(name),
        portable(joined_path(parent, name)),
    ensures
        plainly_named(joined_path(parent, name)),
{
    let path = joined_path(parent, name);
    let head = path.take(path.len() - name.len());
    assert(path =~= head + name);
    assert(head.last() == '/');
    lemma_no_tail(head, name);
    assert(path.len() > 1);
}

/// What is renamed in a place that every machine reads alike is in such a place again.
pub proof fn lemma_renamed_path_is_placed(path: Seq<char>, name: Seq<char>)
    requires
        plainly_placed(path),
        parent_path(path) matches Some(parent) && parent.len() > 0,
        plain_name(name),
        portable(name),
    ensures
        plainly_placed(joined_path(parent_path(path)->0, name)),
        portable(joined_path(parent_path(path)->0, name)),
{
    let parent = parent_path(path)->0;
    let body = without_tail(path);
    let old_head = body.take(last_start(body));
    lemma_last_start_bounds(body);
    lemma_without_tail_is_prefix(path);
    let to = joined_path(parent, name);
    let head = to.take(to.len() - name.len());
    assert(to =~= head + name);
    assert(head.last() == '/');
    lemma_no_tail(head, name);
    lemma_last_start(head, name);
    assert(to.take(head.len() as int) =~= head);
    assert(to.skip(head.len() as int) =~= name);
    if path == seq!['/'] {
        assert(path.drop_last() =~= Seq::empty());
        assert(without_tail(path) == without_tail(Seq::<char>::empty()));
    }
    if old_head.len() <= 1 {
        assert(without_tail(old_head).len() <= old_head.len()) by {
            lemma_without_tail_is_prefix(old_head);
        }
        assert(old_head.len() == 1);
        assert(old_head.last() == '/') by {
            lemma_head_ends_in_slash(body);
        }
        assert(old_head.drop_last() =~= Seq::empty());
        assert(without_tail(old_head) == without_tail(Seq::<char>::empty()));
        assert(parent == seq!['/']);
        assert(head =~= seq!['/']);
    } else {
        let directory = old_head.drop_last();
        assert(old_head.last() == '/') by {
            lemma_head_ends_in_slash(body);
        }
        assert(without_tail(old_head) == directory);
        assert(parent == directory);
        assert(parent.last() != '/') by {
            lemma_without_tail_is_prefix(parent.drop_last());
        }
        assert(head =~= parent.push('/'));
        assert(head.drop_last() =~= parent);
        assert forall|i: int| 0 <= i < parent.len() implies parent[i] == path[i] by {}
    }
    assert forall|c: char| to.contains(c) && c != '/' implies path.contains(c) || name.contains(
        c,
    ) by {
        let i = choose|i: int| 0 <= i < to.len() && to[i] == c;
        if i < head.len() {
            if old_head.len() > 1 && i < parent.len() {
                assert(path[i] == c);
            }
        } else {
            assert(name[i - head.len()] == c);
        }
    }
    if to.len() > 1 && to[0] == '/' && to[1] == '/' {
        if head.len() == 1 {
            assert(to[1] == name[0]);
            assert(name.contains('/'));
        } else {
            assert(to[0] == path[0]);
            if parent.len() == 1 {
                assert(parent.last() == '/');
            } else {
                assert(to[1] == path[1]);
            }
        }
    }
}

/// What stands before the last component, where there is anything, ends in a slash.
proof fn lemma_head_ends_in_slash(path: Seq<char>)
    ensures
        last_start(path) > 0 ==> path[last_start(path) - 1] == '/',
    decreases path.len(),
{
    if path.len() > 0 && path.last() != '/' {
        lemma_head_ends_in_slash(path.drop_last());
        lemma_last_start_bounds(path.drop_last());
    }
}

/// A path without its tail is the beginning of the path.
proof fn lemma_without_tail_is_prefix(path: Seq<char>)
    ensures
        without_tail(path).len() <= path.len(),
        forall|i: int|
            0 <= i < without_tail(path).len() ==> #[trigger] without_tail(path)[i] == path[i],
    decreases path.len(),
{
    if path.len() > 0 && without_tail(path) != path {
        let shorter = path.drop_last();
        lemma_without_tail_is_prefix(shorter);
        assert(without_tail(path) == without_tail(shorter));
        assert forall|i: int| 0 <= i < without_tail(path).len() implies #[trigger] without_tail(
            path,
        )[i] == path[i] by {
            assert(without_tail(shorter)[i] == shorter[i]);
        }
    }
}

/// A joined path is the directory, a slash unless the directory ends in one, and the name.
pub proof fn joined_paths_add_one_slash_at_most(parent: Seq<char>, name: Seq<char>)
    ensures
        parent.len() > 0 && parent.last() == '/' ==> joined_path(parent, name) == parent + name,
        !(parent.len() > 0 && parent.last() == '/') ==> joined_path(parent, name) == parent.push(
            '/',
        ) + name,
{
    assert(parent + seq!['/'] =~= parent.push('/'));
}

} // verus!
