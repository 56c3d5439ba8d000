//! Project-scope containment for file tools.
//!
//! Paths are texts with `/` between components. A path is normalized
//! without touching the file system: empty and `.` components are dropped,
//! and `..` drops the component before it. A requested path is resolved
//! against the project root and must stay under it.

use vstd::prelude::*;
use crate::text::{
    append_chars, buffers, chars_of, same_chars, split, split_on, string_of, trim, trimmed,
};

verus! {

/// The component that stands for the root of the file system.
pub open spec fn root_mark() -> Seq<char> {
    "/"@
}

/// Whether a path starts at the root of the file system.
pub open spec fn is_absolute(path: Seq<char>) -> bool {
    path.len() > 0 && path[0] == '/'
}

/// The components after one more piece of a path: an empty piece and `.`
/// change nothing, `..` drops the last component unless that is the root,
/// anything else is added.
pub open spec fn stepped(stack: Seq<Seq<char>>, piece: Seq<char>) -> Seq<Seq<char>> {
    if piece.len() == 0 || piece == "."@ {
        stack
    } else if piece == ".."@ {
        if stack.len() > 0 && stack.last() != root_mark() {
            stack.drop_last()
        } else {
            stack
        }
    } else {
        stack.push(piece)
    }
}

/// The components after the first `upto` pieces.
pub open spec fn walked(stack: Seq<Seq<char>>, pieces: Seq<Seq<char>>, upto: int) -> Seq<Seq<char>>
    decreases upto,
{
    if upto <= 0 {
        stack
    } else {
        stepped(walked(stack, pieces, upto - 1), pieces[upto - 1])
    }
}

/// The components of `path` resolved against the components `base`: an
/// absolute path starts over at the root, a relative one goes on from `base`.
pub open spec fn resolved(base: Seq<Seq<char>>, path: Seq<char>) -> Seq<Seq<char>> {
    let pieces = split(path, '/');
    walked(
        if is_absolute(path) {
            seq![root_mark()]
        } else {
            base
        },
        pieces,
        pieces.len() as int,
    )
}

/// The normalized components of a path.
pub open spec fn normalized(path: Seq<char>) -> Seq<Seq<char>> {
    resolved(Seq::empty(), path)
}

/// Whether the components `path` start with the components `root`.
pub open spec fn under(root: Seq<Seq<char>>, path: Seq<Seq<char>>) -> bool {
    root.len() <= path.len() && path.subrange(0, root.len() as int) == root
}

/// The first `upto` components written as a path.
pub open spec fn shown(stack: Seq<Seq<char>>, upto: int) -> Seq<char>
    decreases upto,
{
    if upto <= 0 {
        Seq::empty()
    } else if upto == 1 {
        stack[0]
    } else if upto == 2 && stack[0] == root_mark() {
        stack[0] + stack[1]
    } else {
        shown(stack, upto - 1) + "/"@ + stack[upto - 1]
    }
}

/// The path a file tool is asked to work on: the requested text, trimmed,
/// or `.` where nothing is requested.
pub open spec fn requested_path(requested: Option<Seq<char>>) -> Seq<char> {
    match requested {
        Some(p) => if trim(p).len() == 0 {
            "."@
        } else {
            trim(p)
        },
        None => "."@,
    }
}

/// The components a request comes to under the root `root`.
pub open spec fn target(root: Seq<char>, requested: Option<Seq<char>>) -> Seq<Seq<char>> {
    resolved(normalized(root), requested_path(requested))
}

/// Whether a request stays in the project.
pub open spec fn in_scope(root: Seq<char>, requested: Option<Seq<char>>) -> bool {
    under(normalized(root), target(root, requested))
}

/// The code of a request that leaves the project.
pub open spec fn outside_code() -> Seq<char> {
    "path_outside_project_scope"@
}

/// Applies one piece of a path to the components so far.
fn step(stack: &mut Vec<Vec<char>>, piece: Vec<char>)
    ensures
        buffers(final(stack)@) == stepped(buffers(old(stack)@), piece@),
{
    if piece.len() == 0 || same_chars(&piece, &chars_of(".")) {
        return ;
    }
    if same_chars(&piece, &chars_of("..")) {
        if stack.len() > 0 {
            if !same_chars(&stack[stack.len() - 1], &chars_of("/")) {
                stack.pop();
            }
        }
        return ;
    }
    stack.push(piece);
}

/// Resolves `path` against the components `base`.
pub fn resolve(base: Vec<Vec<char>>, path: &Vec<char>) -> (out: Vec<Vec<char>>)
    ensures
        buffers(out@) == resolved(buffers(base@), path@),
{
    let pieces = split_on(path, '/');
    let mut stack = base;
    if path.len() > 0 && path[0] == '/' {
        stack = Vec::new();
        stack.push(chars_of("/"));
        assert(buffers(stack@) =~= seq![root_mark()]);
    }
    let ghost start = buffers(stack@);
    let mut i: usize = 0;
    while i < pieces.len()
        invariant
            i <= pieces.len(),
            buffers(pieces@) == split(path@, '/'),
            buffers(stack@) == walked(start, buffers(pieces@), i as int),
        decreases pieces.len() - i,
    {
        let piece = crate::text::slice_of(&pieces[i], 0, pieces[i].len());
        assert(piece@ =~= pieces@[i as int]@);
        step(&mut stack, piece);
        i = i + 1;
    }
    stack
}

/// The normalized components of a path.
pub fn normalize_path(path: &str) -> (out: Vec<Vec<char>>)
    ensures
        buffers(out@) == normalized(path@),
{
    let base: Vec<Vec<char>> = Vec::new();
    assert(buffers(base@) =~= Seq::<Seq<char>>::empty());
    resolve(base, &chars_of(path))
}

/// Whether the components `path` start with the components `root`.
pub fn starts_with_components(path: &Vec<Vec<char>>, root: &Vec<Vec<char>>) -> (r: bool)
    ensures
        r == under(buffers(root@), buffers(path@)),
{
    if root.len() > path.len() {
        return false;
    }
    let mut i: usize = 0;
    while i < root.len()
        invariant
            i <= root.len() <= path.len(),
            forall|k: int| 0 <= k < i ==> path@[k]@ == root@[k]@,
        decreases root.len() - i,
    {
        if !same_chars(&path[i], &root[i]) {
            assert(buffers(path@).subrange(0, root.len() as int)[i as int] != buffers(root@)[i as int]);
            return false;
        }
        i = i + 1;
    }
    assert(buffers(path@).subrange(0, root.len() as int) =~= buffers(root@));
    true
}

/// Writes components as a path.
pub fn show_path(stack: &Vec<Vec<char>>) -> (out: String)
    ensures
        out@ == shown(buffers(stack@), stack.len() as int),
{
    let mut out: Vec<char> = Vec::new();
    let mut i: usize = 0;
    while i < stack.len()
        invariant
            i <= stack.len(),
            out@ == shown(buffers(stack@), i as int),
        decreases stack.len() - i,
    {
        if i == 0 {
            append_chars(&mut out, &stack[i]);
        } else if i == 1 && same_chars(&stack[0], &chars_of("/")) {
            append_chars(&mut out, &stack[i]);
        } else {
            out.push('/');
            proof {
                reveal_strlit("/");
            }
            append_chars(&mut out, &stack[i]);
        }
        i = i + 1;
    }
    string_of(&out)
}

/// Resolves the path a file tool is asked to work on against the project
/// root and checks that it stays in the project.
///
/// Gives the normalized path where it is under the normalized root, and
/// fails with `path_outside_project_scope` in every other case.
pub fn scoped_path(root: &str, requested: Option<&str>) -> (out: Result<String, String>)
    ensures
        match out {
            Ok(path) => in_scope(root@, requested_view(requested)) && path@ == shown(
                target(root@, requested_view(requested)),
                target(root@, requested_view(requested)).len() as int,
            ),
            Err(code) => !in_scope(root@, requested_view(requested)) && code@ == outside_code(),
        },
{
    let asked = match requested {
        Some(p) => {
            let t = trimmed(&chars_of(p));
            if t.len() == 0 {
                chars_of(".")
            } else {
                t
            }
        },
        None => chars_of("."),
    };
    let root_stack = normalize_path(root);
    let mut base: Vec<Vec<char>> = Vec::new();
    let mut i: usize = 0;
    while i < root_stack.len()
        invariant
            i <= root_stack.len(),
            base@.len() == i,
            forall|k: int| 0 <= k < i ==> base@[k]@ == root_stack@[k]@,
        decreases root_stack.len() - i,
    {
        base.push(crate::text::slice_of(&root_stack[i], 0, root_stack[i].len()));
        i = i + 1;
    }
    assert(buffers(base@) =~= buffers(root_stack@));
    let target = resolve(base, &asked);
    if starts_with_components(&target, &root_stack) {
        Ok(show_path(&target))
    } else {
        Err("path_outside_project_scope".to_string())
    }
}

/// What contracts see of an optional requested path.
pub open spec fn requested_view(requested: Option<&str>) -> Option<Seq<char>> {
    match requested {
        Some(p) => Some(p@),
        None => None,
    }
}

/// Normalizing never leaves a `.` or `..` behind, and never an empty component.
pub proof fn lemma_walk_is_clean(stack: Seq<Seq<char>>, pieces: Seq<Seq<char>>, upto: int)
    requires
        0 <= upto <= pieces.len(),
        forall|k: int| 0 <= k < stack.len() ==> clean(#[trigger] stack[k]),
    ensures
        forall|k: int|
            0 <= k < walked(stack, pieces, upto).len() ==> clean(#[trigger] walked(stack, pieces, upto)[k]),
    decreases upto,
{
    if upto > 0 {
        lemma_walk_is_clean(stack, pieces, upto - 1);
        assert(walked(stack, pieces, upto) == stepped(walked(stack, pieces, upto - 1), pieces[upto - 1]));
    }
}

/// Whether a component is a real name: not empty, not `.`, not `..`.
pub open spec fn clean(component: Seq<char>) -> bool {
    component.len() > 0 && component != "."@ && component != ".."@
}

/// A path in scope has no way out: its components begin with those of the
/// root and none of them is `.` or `..`.
pub proof fn lemma_scoped_path_is_contained(root: Seq<char>, requested: Option<Seq<char>>)
    requires
        in_scope(root, requested),
    ensures
        under(normalized(root), target(root, requested)),
        forall|k: int|
            0 <= k < target(root, requested).len() ==> clean(#[trigger] target(root, requested)[k]),
{
    reveal_strlit("/");
    reveal_strlit(".");
    reveal_strlit("..");
    let root_pieces = split(root, '/');
    let none = Seq::<Seq<char>>::empty();
    let start = if is_absolute(root) {
        seq![root_mark()]
    } else {
        none
    };
    assert forall|k: int| 0 <= k < start.len() implies clean(#[trigger] start[k]) by {
        assert(root_mark()[0] == '/');
    }
    lemma_walk_is_clean(start, root_pieces, root_pieces.len() as int);
    let asked = requested_path(requested);
    let pieces = split(asked, '/');
    let from = if is_absolute(asked) {
        seq![root_mark()]
    } else {
        normalized(root)
    };
    assert forall|k: int| 0 <= k < from.len() implies clean(#[trigger] from[k]) by {
        assert(root_mark()[0] == '/');
    }
    lemma_walk_is_clean(from, pieces, pieces.len() as int);
}

} // verus!
