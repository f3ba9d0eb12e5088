//! File-system paths as the browser handles them: an optional root followed
//! by a sequence of named components, with the component-wise `parent`,
//! `file_name`, `join` and `starts_with` of Unix paths.

use vstd::prelude::*;
use crate::text::text_eq;

verus! {

/// The abstract value of a path: whether it starts at the root, and its
/// components in order.
#[verifier::ext_equal]
pub struct PathModel {
    pub absolute: bool,
    pub components: Seq<Seq<char>>,
}

/// A path split into components. `"/workspace/a.txt"` is
/// `{ absolute: true, components: ["workspace", "a.txt"] }`; the root `"/"` has
/// no components.
#[derive(Debug, Clone, PartialEq, Eq, Hash)]
pub struct FsPath {
    pub absolute: bool,
    pub components: Vec<String>,
}

pub open spec fn component_views(components: Seq<String>) -> Seq<Seq<char>> {
    components.map_values(|c: String| c@)
}

impl View for FsPath {
    type V = PathModel;

    open spec fn view(&self) -> PathModel {
        PathModel { absolute: self.absolute, components: component_views(self.components@) }
    }
}

/// `path.parent()`: the path without its last component; the root and the
/// empty relative path have none.
pub open spec fn parent_spec(path: PathModel) -> Option<PathModel> {
    if path.components.len() == 0 {
        None
    } else {
        Some(PathModel { absolute: path.absolute, components: path.components.drop_last() })
    }
}

/// `path.file_name()`: the last component, unless the path ends in `.` or
/// `..` or has no components.
pub open spec fn file_name_spec(path: PathModel) -> Option<Seq<char>> {
    if path.components.len() == 0 || path.components.last() == ".."@ || path.components.last()
        == "."@ {
        None
    } else {
        Some(path.components.last())
    }
}

/// `base.join(name)` for a single component `name`; joining the empty name
/// leaves the components unchanged.
pub open spec fn join_spec(base: PathModel, name: Seq<char>) -> PathModel {
    if name.len() == 0 {
        base
    } else {
        PathModel { absolute: base.absolute, components: base.components.push(name) }
    }
}

/// `path.with_file_name(name)`: replaces the file name, or appends `name` when
/// the path has none.
pub open spec fn with_file_name_spec(path: PathModel, name: Seq<char>) -> PathModel {
    let stem = if file_name_spec(path) is Some {
        PathModel { absolute: path.absolute, components: path.components.drop_last() }
    } else {
        path
    };
    join_spec(stem, name)
}

/// `path.starts_with(base)`: component-wise prefix on the same root.
pub open spec fn starts_with_spec(path: PathModel, base: PathModel) -> bool {
    &&& path.absolute == base.absolute
    &&& base.components.len() <= path.components.len()
    &&& path.components.subrange(0, base.components.len() as int) == base.components
}

/// The path written out: a leading `/` for absolute paths, components
/// separated by `/`.
pub open spec fn components_text(components: Seq<Seq<char>>) -> Seq<char>
    decreases components.len(),
{
    if components.len() == 0 {
        Seq::empty()
    } else if components.len() == 1 {
        components[0]
    } else {
        components_text(components.drop_last()) + "/"@ + components.last()
    }
}

pub open spec fn path_text(path: PathModel) -> Seq<char> {
    if path.absolute {
        "/"@ + components_text(path.components)
    } else {
        components_text(path.components)
    }
}

/// A moving a `source` into `directory` changes nothing: the directory is the
/// source itself, lies inside the source, or already holds the source.
pub open spec fn move_is_no_op_spec(source: PathModel, directory: PathModel) -> bool {
    ||| starts_with_spec(directory, source)
    ||| parent_spec(source) == Some(directory)
}

impl FsPath {
    pub fn new(absolute: bool, components: Vec<String>) -> (path: FsPath)
        ensures
            path.absolute == absolute,
            path.components@ == components@,
    {
        FsPath { absolute, components }
    }

    /// The file-system root `/`.
    pub fn root() -> (path: FsPath)
        ensures
            path@.absolute,
            path@.components.len() == 0,
    {
        FsPath { absolute: true, components: Vec::new() }
    }

    /// A copy with the same abstract value.
    pub fn duplicate(&self) -> (copy: FsPath)
        ensures
            copy@ == self@,
    {
        let mut components: Vec<String> = Vec::new();
        let mut i: usize = 0;
        while i < self.components.len()
            invariant
                i <= self.components@.len(),
                components@.len() == i,
                forall|j: int| 0 <= j < i ==> components@[j]@ == self.components@[j]@,
            decreases self.components@.len() - i,
        {
            components.push(self.components[i].clone());
            i = i + 1;
        }
        let copy = FsPath { absolute: self.absolute, components };
        assert(copy@.components =~= self@.components);
        copy
    }

    /// Component-wise equality.
    pub fn same_as(&self, other: &FsPath) -> (same: bool)
        ensures
            same == (self@ == other@),
    {
        if self.absolute != other.absolute || self.components.len() != other.components.len() {
            proof {
                if self@ == other@ {
                    assert(self@.components.len() == other@.components.len());
                }
            }
            return false;
        }
        let mut i: usize = 0;
        while i < self.components.len()
            invariant
                i <= self.components@.len(),
                self.components@.len() == other.components@.len(),
                self.absolute == other.absolute,
                forall|j: int| 0 <= j < i ==> self.components@[j]@ == other.components@[j]@,
            decreases self.components@.len() - i,
        {
            if !text_eq(self.components[i].as_str(), other.components[i].as_str()) {
                proof {
                    if self@ == other@ {
                        assert(self@.components[i as int] == other@.components[i as int]);
                    }
                }
                return false;
            }
            i = i + 1;
        }
        assert(self@.components =~= other@.components);
        true
    }

    /// `self.starts_with(base)`.
    pub fn starts_with(&self, base: &FsPath) -> (inside: bool)
        ensures
            inside == starts_with_spec(self@, base@),
    {
        if self.absolute != base.absolute || base.components.len() > self.components.len() {
            return false;
        }
        let mut i: usize = 0;
        while i < base.components.len()
            invariant
                i <= base.components@.len(),
                base.components@.len() <= self.components@.len(),
                forall|j: int| 0 <= j < i ==> self.components@[j]@ == base.components@[j]@,
            decreases base.components@.len() - i,
        {
            if !text_eq(self.components[i].as_str(), base.components[i].as_str()) {
                proof {
                    let prefix = self@.components.subrange(0, base@.components.len() as int);
                    assert(prefix[i as int] == self@.components[i as int]);
                }
                return false;
            }
            i = i + 1;
        }
        assert(self@.components.subrange(0, base@.components.len() as int) =~= base@.components);
        true
    }

    /// `self.parent()`.
    pub fn parent(&self) -> (parent: Option<FsPath>)
        ensures
            parent matches Some(p) ==> parent_spec(self@) == Some(p@),
            parent is None <==> parent_spec(self@) is None,
    {
        let n = self.components.len();
        if n == 0 {
            return None;
        }
        let mut components: Vec<String> = Vec::new();
        let mut i: usize = 0;
        while i + 1 < n
            invariant
                n == self.components@.len(),
                n > 0,
                i + 1 <= n,
                components@.len() == i,
                forall|j: int| 0 <= j < i ==> components@[j]@ == self.components@[j]@,
            decreases n - i,
        {
            components.push(self.components[i].clone());
            i = i + 1;
        }
        let parent = FsPath { absolute: self.absolute, components };
        assert(parent@.components =~= self@.components.drop_last());
        Some(parent)
    }

    /// The ancestor made of the first `count` components (the path itself
    /// when `count` is its length).
    pub fn ancestor(&self, count: usize) -> (ancestor: FsPath)
        requires
            count <= self@.components.len(),
        ensures
            ancestor@ == (PathModel { absolute: self@.absolute, components: self@.components.take(count as int) }),
    {
        let mut components: Vec<String> = Vec::new();
        let mut i: usize = 0;
        while i < count
            invariant
                count <= self.components@.len(),
                i <= count,
                components@.len() == i,
                forall|j: int| 0 <= j < i ==> components@[j]@ == self.components@[j]@,
            decreases count - i,
        {
            components.push(self.components[i].clone());
            i = i + 1;
        }
        let ancestor = FsPath { absolute: self.absolute, components };
        assert(ancestor@.components =~= self@.components.take(count as int));
        ancestor
    }

    /// Whether `self.parent()` is `directory`.
    pub fn parent_is(&self, directory: &FsPath) -> (is_parent: bool)
        ensures
            is_parent == (parent_spec(self@) == Some(directory@)),
    {
        match self.parent() {
            Some(parent) => parent.same_as(directory),
            None => false,
        }
    }

    /// `self.file_name()`.
    pub fn file_name(&self) -> (name: Option<String>)
        ensures
            name matches Some(n) ==> file_name_spec(self@) == Some(n@),
            name is None <==> file_name_spec(self@) is None,
    {
        let n = self.components.len();
        if n == 0 {
            return None;
        }
        let last = &self.components[n - 1];
        assert(self@.components.last() == last@);
        if text_eq(last.as_str(), "..") || text_eq(last.as_str(), ".") {
            None
        } else {
            Some(last.clone())
        }
    }

    /// `self.join(name)` for a single component.
    pub fn join_name(&self, name: &str) -> (joined: FsPath)
        ensures
            joined@ == join_spec(self@, name@),
    {
        let mut joined = self.duplicate();
        if name.unicode_len() > 0 {
            joined.components.push(String::from_str(name));
            assert(joined@.components =~= self@.components.push(name@));
        }
        joined
    }

    /// `self.with_file_name(name)`.
    pub fn with_file_name(&self, name: &str) -> (renamed: FsPath)
        ensures
            renamed@ == with_file_name_spec(self@, name@),
    {
        match self.file_name() {
            Some(_) => {
                let parent = self.parent();
                match parent {
                    Some(parent) => parent.join_name(name),
                    None => self.join_name(name),
                }
            },
            None => self.join_name(name),
        }
    }

    /// The path written out with `/` separators.
    pub fn to_text(&self) -> (text: String)
        ensures
            text@ == path_text(self@),
    {
        let mut text = if self.absolute {
            String::from_str("/")
        } else {
            String::new()
        };
        let ghost prefix = text@;
        let n = self.components.len();
        let mut i: usize = 0;
        while i < n
            invariant
                n == self.components@.len(),
                i <= n,
                prefix == (if self.absolute { "/"@ } else { Seq::<char>::empty() }),
                text@ == prefix + components_text(self@.components.subrange(0, i as int)),
            decreases n - i,
        {
            let ghost before = self@.components.subrange(0, i as int);
            let ghost after = self@.components.subrange(0, i + 1);
            assert(after.drop_last() =~= before);
            assert(after.last() == self.components@[i as int]@);
            if i > 0 {
                text.append("/");
            }
            text.append(self.components[i].as_str());
            proof {
                if i == 0 {
                    assert(components_text(before) =~= Seq::<char>::empty());
                    assert(components_text(after) == after[0]);
                    assert(text@ =~= prefix + components_text(after));
                } else {
                    assert(text@ =~= prefix + components_text(after));
                }
            }
            i = i + 1;
        }
        assert(self@.components.subrange(0, n as int) =~= self@.components);
        proof {
            if self.absolute {
                assert(text@ =~= path_text(self@));
            } else {
                assert(text@ =~= path_text(self@));
            }
        }
        text
    }
}

/// `paths::move_is_no_op`: moving `source` into `directory` would leave it
/// where it is (the directory is the source or lies inside it, or is already
/// the source's parent).
pub fn move_is_no_op(source: &FsPath, directory: &FsPath) -> (no_op: bool)
    ensures
        no_op == move_is_no_op_spec(source@, directory@),
{
    directory.starts_with(source) || source.parent_is(directory)
}

/// A path is inside itself, and inside its parent.
pub proof fn lemma_starts_with_self_and_parent(path: PathModel)
    ensures
        starts_with_spec(path, path),
        parent_spec(path) matches Some(parent) ==> starts_with_spec(path, parent),
{
    assert(path.components.subrange(0, path.components.len() as int) =~= path.components);
    if path.components.len() > 0 {
        assert(path.components.subrange(0, path.components.len() - 1) =~= path.components.drop_last());
    }
}

/// Joining a name and taking the parent gives back the directory; the joined
/// path's file name is the name (unless it is `.` or `..`).
pub proof fn lemma_join_then_parent(base: PathModel, name: Seq<char>)
    requires
        name.len() > 0,
    ensures
        parent_spec(join_spec(base, name)) == Some(base),
        name != ".."@ && name != "."@ ==> file_name_spec(join_spec(base, name)) == Some(name),
{
    assert(base.components.push(name).drop_last() =~= base.components);
}

} // verus!
