//! Where a newly created file goes: `<watch root>/<EXT>/<file name>`.

use vstd::prelude::*;
use crate::paths::{
    extension, extension_of, file_name, file_name_of, is_component, is_component_str, join,
    join_path, lemma_last_index_of, last_index_of,
};

verus! {

/// The uppercase form of a text, as Unicode defines it.
pub uninterp spec fn upper_of(s: Seq<char>) -> Seq<char>;

/// Relies on `str::to_uppercase`: the uppercase form of `s`, which depends on
/// its characters alone.
#[verifier::external_body]
fn to_upper(s: &str) -> (r: String)
    ensures
        r@ == upper_of(s@),
{
    s.to_uppercase()
}

/// The category of a file: its extension, uppercased. A file whose name has no
/// extension, or an empty one, or whose uppercased extension is no single path
/// component, has no category and stays where it is.
pub open spec fn category_key_of(source: Seq<char>) -> Option<Seq<char>> {
    match extension_of(file_name_of(source)) {
        Some(ext) => if ext.len() > 0 && is_component(upper_of(ext)) {
            Some(upper_of(ext))
        } else {
            None
        },
        None => None,
    }
}

/// The paths of one move, as values.
pub struct PlanView {
    pub source: Seq<char>,
    pub dir: Seq<char>,
    pub dest: Seq<char>,
}

/// The move of the file at `source` into the category `key` of the watch root `root`.
pub open spec fn plan_with_key(root: Seq<char>, source: Seq<char>, key: Seq<char>) -> PlanView {
    PlanView { source, dir: join(root, key), dest: join(join(root, key), file_name_of(source)) }
}

/// The move that a new file at `source` under the watch root `root` calls for.
pub open spec fn plan_of(root: Seq<char>, source: Seq<char>) -> Option<PlanView> {
    match category_key_of(source) {
        Some(key) => Some(plan_with_key(root, source, key)),
        None => None,
    }
}

/// The paths of one move: the file, the category directory that must exist,
/// and where the file goes in it.
pub struct MovePlan {
    pub source: String,
    pub dir: String,
    pub dest: String,
}

impl View for MovePlan {
    type V = PlanView;

    open spec fn view(&self) -> PlanView {
        PlanView { source: self.source@, dir: self.dir@, dest: self.dest@ }
    }
}

/// `Some` of the view of the plan, or `None`.
pub open spec fn plan_view(o: Option<MovePlan>) -> Option<PlanView> {
    match o {
        Some(p) => Some(p@),
        None => None,
    }
}

/// The category of the file at `source`.
pub fn category_key(source: &str) -> (r: Option<String>)
    ensures
        crate::paths::opt_view(r) == category_key_of(source@),
{
    let name = file_name(source);
    match extension(name.as_str()) {
        Some(ext) => {
            if ext.as_str().unicode_len() == 0 {
                return None;
            }
            let key = to_upper(ext.as_str());
            if is_component_str(key.as_str()) {
                Some(key)
            } else {
                None
            }
        },
        None => None,
    }
}

/// The move of the file at `source` into the category `key` of the watch root
/// `watch_dir`.
pub fn plan_in_category(watch_dir: &str, source: &str, key: &str) -> (r: MovePlan)
    ensures
        r@ == plan_with_key(watch_dir@, source@, key@),
{
    let dir = join_path(watch_dir, key);
    let name = file_name(source);
    let dest = join_path(dir.as_str(), name.as_str());
    MovePlan { source: String::from_str(source), dir, dest }
}

/// The move for a new file at `source` under the watch root `watch_dir`, or
/// `None` where the file has no category.
pub fn plan_move(watch_dir: &str, source: &str) -> (r: Option<MovePlan>)
    ensures
        plan_view(r) == plan_of(watch_dir@, source@),
{
    match category_key(source) {
        Some(key) => Some(plan_in_category(watch_dir, source, key.as_str())),
        None => None,
    }
}

/// Where a file has a category, its name is a single path component too, so
/// the category directory is a direct child of the watch root and the
/// destination a direct child of that directory.
pub proof fn lemma_plan_shape(root: Seq<char>, source: Seq<char>)
    requires
        plan_of(root, source) is Some,
    ensures
        ({
            let p = plan_of(root, source)->0;
            let key = category_key_of(source)->0;
            &&& is_component(key)
            &&& is_component(file_name_of(source))
            &&& p.dir == join(root, key)
            &&& p.dest == join(p.dir, file_name_of(source))
            &&& p.source == source
        }),
{
    let name = file_name_of(source);
    lemma_last_index_of(source, '/');
    lemma_last_index_of(name, '.');
    let i = last_index_of(name, '.');
    assert(forall|j: int| 0 <= j < name.len() ==> name[j] != '/');
    if name == seq!['.'] {
        assert(name.len() == 1);
    }
    if name == seq!['.', '.'] {
        assert(name[1] == '.');
        assert(i == 1);
    }
}

} // verus!
