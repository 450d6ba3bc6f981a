//! A model of the filesystem that a driver works on, and what sorting one
//! file does to it.
//!
//! A filesystem is a map from paths to nodes. Making a directory and renaming
//! a file act on it as `create_dir_all` and `rename` act on a single volume
//! that nothing else writes to while a file is sorted.

use vstd::prelude::*;
use crate::category::{category_key_of, lemma_plan_shape, plan_of};
use crate::mover::{
    first_step, rename_outcome, step_after_dir, step_after_probe, IoFailure, Outcome, Step,
};
use crate::paths::{file_name_of, is_component, join};

verus! {

/// What stands at a path: a file, told apart from others by its content, or a
/// directory.
pub enum Node {
    File(int),
    Dir,
}

/// Paths and what stands at them.
pub type Fs = Map<Seq<char>, Node>;

/// Making a directory that may exist already: where it does, nothing changes;
/// where a file stands in its place, it fails.
pub open spec fn create_dir_model(fs: Fs, dir: Seq<char>) -> (Fs, Result<(), IoFailure>) {
    if fs.contains_key(dir) {
        match fs[dir] {
            Node::Dir => (fs, Ok(())),
            Node::File(_) => (fs, Err(IoFailure::AlreadyExists)),
        }
    } else {
        (fs.insert(dir, Node::Dir), Ok(()))
    }
}

/// Renaming `from` to `to`.
pub open spec fn rename_model(fs: Fs, from: Seq<char>, to: Seq<char>) -> (Fs, Result<(), IoFailure>) {
    if fs.contains_key(from) {
        (fs.remove(from).insert(to, fs[from]), Ok(()))
    } else {
        (fs, Err(IoFailure::NotFound))
    }
}

/// Sorting the new file at `source` under the watch root `root`: each action
/// that the steps hand out, performed on `fs`, and the outcome.
pub open spec fn process(fs: Fs, root: Seq<char>, source: Seq<char>) -> (Fs, Outcome) {
    match first_step(root, source) {
        Step::EnsureDir(p) => {
            let (fs1, made) = create_dir_model(fs, p.dir);
            match step_after_dir(p, made) {
                Step::Probe(p) => match step_after_probe(
                    p,
                    fs1.contains_key(p.source),
                    fs1.contains_key(p.dest),
                ) {
                    Step::Rename(p) => {
                        let (fs2, moved) = rename_model(fs1, p.source, p.dest);
                        (fs2, rename_outcome(moved))
                    },
                    Step::Finish(o) => (fs1, o),
                    _ => (fs1, Outcome::MoveFailed),
                },
                Step::Finish(o) => (fs1, o),
                _ => (fs1, Outcome::MoveFailed),
            }
        },
        Step::Finish(o) => (fs, o),
        _ => (fs, Outcome::MoveFailed),
    }
}

/// `q` is a category directory of `root`, or a direct child of one.
pub open spec fn in_category(root: Seq<char>, q: Seq<char>) -> bool {
    exists|key: Seq<char>, name: Seq<char>|
        is_component(key) && is_component(name) && (q == join(root, key) || q == join(
            join(root, key),
            name,
        ))
}

/// Sorting a file writes only into a category directory of the watch root:
/// every path at which something is made or replaced is such a directory or a
/// direct child of one, and the one path at which something goes away is the
/// file's own.
pub proof fn lemma_writes_stay_in_category(fs: Fs, root: Seq<char>, source: Seq<char>)
    ensures
        ({
            let fs2 = process(fs, root, source).0;
            &&& forall|q: Seq<char>|
                #[trigger] fs2.contains_key(q) && !(fs.contains_key(q) && fs[q] == fs2[q])
                    ==> in_category(root, q)
            &&& forall|q: Seq<char>|
                #[trigger] fs.contains_key(q) && !fs2.contains_key(q) ==> q == source
        }),
{
    if plan_of(root, source) is Some {
        lemma_plan_shape(root, source);
        let key = category_key_of(source)->0;
        let name = file_name_of(source);
        let p = plan_of(root, source)->0;
        let fs2 = process(fs, root, source).0;
        assert forall|q: Seq<char>|
            #[trigger] fs2.contains_key(q) && !(fs.contains_key(q) && fs[q] == fs2[q]) implies in_category(
            root,
            q,
        ) by {
            assert(q == p.dir || q == p.dest);
            assert(is_component(key) && is_component(name) && (q == join(root, key) || q == join(
                join(root, key),
                name,
            )));
        }
    }
}

/// Making a directory twice in a row: the second time succeeds and changes
/// nothing, where the first succeeded.
pub proof fn lemma_create_dir_idempotent(fs: Fs, dir: Seq<char>)
    requires
        create_dir_model(fs, dir).1 is Ok,
    ensures
        create_dir_model(create_dir_model(fs, dir).0, dir) == create_dir_model(fs, dir),
        create_dir_model(fs, dir).0.contains_key(dir),
        create_dir_model(fs, dir).0[dir] == Node::Dir,
{
}

/// A new file whose category directory is free to use and whose destination
/// is free ends up at the destination, and no longer where it was.
pub proof fn lemma_round_trip(fs: Fs, root: Seq<char>, source: Seq<char>)
    requires
        plan_of(root, source) is Some,
        fs.contains_key(source),
        fs[source] is File,
        !fs.contains_key(plan_of(root, source)->0.dest),
        fs.contains_key(plan_of(root, source)->0.dir) ==> fs[plan_of(root, source)->0.dir] is Dir,
    ensures
        ({
            let dest = plan_of(root, source)->0.dest;
            let (fs2, o) = process(fs, root, source);
            &&& o == Outcome::Moved
            &&& fs2.contains_key(dest)
            &&& fs2[dest] == fs[source]
            &&& !fs2.contains_key(source)
        }),
{
    lemma_plan_shape(root, source);
    let p = plan_of(root, source)->0;
    assert(p.dest.len() > p.dir.len());
}

/// A destination that is taken stays as it was, and so does the new file:
/// nothing is moved.
pub proof fn lemma_collision_safe(fs: Fs, root: Seq<char>, source: Seq<char>)
    requires
        plan_of(root, source) is Some,
        fs.contains_key(plan_of(root, source)->0.dest),
    ensures
        ({
            let dest = plan_of(root, source)->0.dest;
            let (fs2, o) = process(fs, root, source);
            &&& o != Outcome::Moved
            &&& fs2.contains_key(dest)
            &&& fs2[dest] == fs[dest]
            &&& fs.contains_key(source) ==> fs2.contains_key(source) && fs2[source]
                == fs[source]
        }),
{
    lemma_plan_shape(root, source);
    let p = plan_of(root, source)->0;
    assert(p.dest.len() > p.dir.len());
}

/// Sorting a file that was just moved a second time, as when its creation is
/// reported twice, finds the source gone and changes nothing.
pub proof fn lemma_redelivery(fs: Fs, root: Seq<char>, source: Seq<char>)
    requires
        fs.contains_key(source),
        fs[source] is File,
        process(fs, root, source).1 == Outcome::Moved,
    ensures
        ({
            let fs1 = process(fs, root, source).0;
            process(fs1, root, source) == (fs1, Outcome::SourceNotFound)
        }),
{
    lemma_plan_shape(root, source);
    let p = plan_of(root, source)->0;
    assert(p.dest.len() > p.dir.len());
}

} // verus!
