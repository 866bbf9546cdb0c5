//! Paths as sequences of named components.
//!
//! A path is read from text by cutting it at every `/`; the empty pieces
//! (a leading, trailing or doubled separator) name nothing and are dropped.
//! Whether the text starts at the file-system root is kept beside the names.

use vstd::prelude::*;
use vstd::string::*;
use crate::error::{ErrorKind, InstallError, InstallErrorModel};
use crate::text::{copy_strings, views_of};

verus! {

/// The character that separates the components of a path.
pub const SEPARATOR: char = '/';

/// The mathematical value of a path.
pub struct PathModel {
    /// Whether the path starts at the file-system root.
    pub absolute: bool,
    /// The names along the path, outermost first.
    pub components: Seq<Seq<char>>,
}

/// Every piece of `text` between separators, empty pieces included.
/// There is always at least one piece.
pub open spec fn segments(text: Seq<char>) -> Seq<Seq<char>>
    decreases text.len(),
{
    if text.len() == 0 {
        seq![Seq::<char>::empty()]
    } else {
        let before = segments(text.drop_last());
        if text.last() == SEPARATOR {
            before.push(Seq::<char>::empty())
        } else {
            before.drop_last().push(before.last().push(text.last()))
        }
    }
}

/// Whether a piece names a component.
pub open spec fn is_name(piece: Seq<char>) -> bool {
    piece.len() > 0
}

/// The test that keeps the pieces that name a component.
pub open spec fn names() -> spec_fn(Seq<char>) -> bool {
    |piece: Seq<char>| is_name(piece)
}

/// The components that `text` names: its non-empty pieces, in order.
pub open spec fn components_of(text: Seq<char>) -> Seq<Seq<char>> {
    segments(text).filter(names())
}

/// Whether `text` starts at the file-system root.
pub open spec fn starts_at_root(text: Seq<char>) -> bool {
    text.len() > 0 && text[0] == SEPARATOR
}

/// The path that `text` denotes.
pub open spec fn path_of(text: Seq<char>) -> PathModel {
    PathModel { absolute: starts_at_root(text), components: components_of(text) }
}

/// Whether `name` can stand as one component: it is not empty and holds no
/// separator.
pub open spec fn is_component(name: Seq<char>) -> bool {
    name.len() > 0 && forall|k: int| 0 <= k < name.len() ==> name[k] != SEPARATOR
}

/// The components written one after the other with a separator between each
/// two.
pub open spec fn joined(components: Seq<Seq<char>>) -> Seq<char>
    decreases components.len(),
{
    if components.len() == 0 {
        Seq::<char>::empty()
    } else if components.len() == 1 {
        components[0]
    } else {
        joined(components.drop_last()) + seq![SEPARATOR] + components.last()
    }
}

impl PathModel {
    /// Every component is a name without a separator.
    pub open spec fn well_formed(self) -> bool {
        forall|i: int|
            0 <= i < self.components.len() ==> is_component(#[trigger] self.components[i])
    }

    /// The path as text: its components joined by separators, after a leading
    /// separator where the path starts at the root.
    pub open spec fn text(self) -> Seq<char> {
        if self.absolute {
            seq![SEPARATOR] + joined(self.components)
        } else {
            joined(self.components)
        }
    }

    /// `other` taken from `self`: an absolute `other` stands for itself, a
    /// relative one is appended.
    pub open spec fn join(self, other: PathModel) -> PathModel {
        if other.absolute {
            other
        } else {
            PathModel { absolute: self.absolute, components: self.components + other.components }
        }
    }

    /// The first `count` components of the path.
    pub open spec fn prefix(self, count: int) -> PathModel {
        PathModel { absolute: self.absolute, components: self.components.take(count) }
    }
}

/// Whether `window` lies in `components` from position `at` on, component by
/// component.
pub open spec fn window_at(components: Seq<Seq<char>>, window: Seq<Seq<char>>, at: int) -> bool {
    &&& 0 <= at
    &&& at + window.len() <= components.len()
    &&& components.subrange(at, at + window.len()) == window
}

/// Whether the components of `window` occur in `components` as one unbroken
/// run of whole components. An empty window occurs nowhere.
pub open spec fn contains_subpath(components: Seq<Seq<char>>, window: Seq<Seq<char>>) -> bool {
    window.len() > 0 && exists|at: int| window_at(components, window, at)
}

/// The name of the directory that marks an editor installation.
pub open spec fn editor_dir_name() -> Seq<char> {
    "Editor"@
}

/// Walks up from the last component until one is named `Editor` and gives
/// what lies above it; `None` when the walk runs out of components.
pub open spec fn editor_root_of(components: Seq<Seq<char>>) -> Option<Seq<Seq<char>>>
    decreases components.len(),
{
    if components.len() == 0 {
        None
    } else if components.last() == editor_dir_name() {
        Some(components.drop_last())
    } else {
        editor_root_of(components.drop_last())
    }
}

/// The root of the editor installation that `path` lies in.
pub open spec fn editor_root(path: PathModel) -> Option<PathModel> {
    match editor_root_of(path.components) {
        Some(components) => Some(PathModel { absolute: path.absolute, components }),
        None => None,
    }
}

/// A file-system path held as its components.
#[derive(Debug)]
pub struct FsPath {
    absolute: bool,
    components: Vec<String>,
}

impl View for FsPath {
    type V = PathModel;

    closed spec fn view(&self) -> PathModel {
        PathModel { absolute: self.absolute, components: views_of(self.components@) }
    }
}

proof fn lemma_segments_nonempty(text: Seq<char>)
    ensures
        segments(text).len() >= 1,
    decreases text.len(),
{
    if text.len() > 0 {
        lemma_segments_nonempty(text.drop_last());
    }
}

impl FsPath {
    #[verifier::type_invariant]
    spec fn components_are_names(self) -> bool {
        self@.well_formed()
    }

    /// Reads a path from text.
    pub fn parse(text: &str) -> (path: FsPath)
        ensures
            path@ == path_of(text@),
            path@.well_formed(),
    {
        let n = text.unicode_len();
        let absolute = n > 0 && text.get_char(0) == SEPARATOR;
        let mut components: Vec<String> = Vec::new();
        let mut start: usize = 0;
        let mut i: usize = 0;
        proof {
            reveal(Seq::filter);
            assert(text@.take(0) =~= Seq::<char>::empty());
            assert(segments(text@.take(0)).drop_last() =~= Seq::<Seq<char>>::empty());
            assert(text@.subrange(0, 0) =~= Seq::<char>::empty());
            assert(views_of(components@) =~= Seq::<Seq<char>>::empty());
        }
        while i < n
            invariant
                start <= i <= n,
                n == text@.len(),
                segments(text@.take(i as int)).len() >= 1,
                forall|k: int| start <= k < i ==> text@[k] != SEPARATOR,
                forall|k: int| 0 <= k < components.len() ==> is_component(#[trigger] components[k]@),
                segments(text@.take(i as int)).last() == text@.subrange(start as int, i as int),
                views_of(components@) == segments(text@.take(i as int)).drop_last().filter(names()),
            decreases n - i,
        {
            let c = text.get_char(i);
            let ghost before = segments(text@.take(i as int));
            let ghost named = views_of(components@);
            proof {
                let next = text@.take(i + 1);
                assert(next.drop_last() =~= text@.take(i as int));
                lemma_segments_nonempty(next);
                if c == SEPARATOR {
                    assert(segments(next).drop_last() =~= before);
                    assert(before =~= before.drop_last().push(before.last()));
                    before.drop_last().lemma_filter_push(before.last(), names());
                    assert(text@.subrange(i + 1, i + 1) =~= Seq::<char>::empty());
                } else {
                    assert(segments(next).drop_last() =~= before.drop_last());
                    assert(text@.subrange(start as int, i + 1) =~= text@.subrange(
                        start as int,
                        i as int,
                    ).push(c));
                }
            }
            if c == SEPARATOR {
                if start < i {
                    let name = String::from_str(text.substring_char(start, i));
                    components.push(name);
                    assert(views_of(components@) =~= named.push(before.last()));
                }
                start = i + 1;
            }
            i += 1;
        }
        let ghost before = segments(text@);
        let ghost named = views_of(components@);
        proof {
            assert(text@.take(n as int) =~= text@);
            assert(before =~= before.drop_last().push(before.last()));
            before.drop_last().lemma_filter_push(before.last(), names());
        }
        if start < n {
            let name = String::from_str(text.substring_char(start, n));
            components.push(name);
            assert(views_of(components@) =~= named.push(before.last()));
        }
        FsPath { absolute, components }
    }

    /// Whether the path starts at the file-system root.
    pub fn is_absolute(&self) -> (absolute: bool)
        ensures
            absolute == self@.absolute,
    {
        self.absolute
    }

    /// How many components the path has.
    pub fn len(&self) -> (count: usize)
        ensures
            count == self@.components.len(),
    {
        self.components.len()
    }

    /// The first `count` components of the path, as a path of its own.
    fn prefix(&self, count: usize) -> (path: FsPath)
        requires
            count <= self@.components.len(),
        ensures
            path@ == self@.prefix(count as int),
    {
        proof {
            use_type_invariant(self);
        }
        let mut components: Vec<String> = Vec::new();
        let mut i: usize = 0;
        while i < count
            invariant
                i <= count <= self.components.len(),
                components.len() == i,
                forall|k: int| 0 <= k < i ==> components[k]@ == self.components[k]@,
                self@.well_formed(),
            decreases count - i,
        {
            components.push(self.components[i].clone());
            i += 1;
        }
        assert(views_of(components@) =~= self@.components.take(count as int));
        assert forall|k: int| 0 <= k < components.len() implies is_component(
            #[trigger] views_of(components@)[k],
        ) by {
            assert(is_component(self@.components[k]));
        }
        FsPath { absolute: self.absolute, components }
    }

    /// A copy of the path.
    pub fn duplicate(&self) -> (copy: FsPath)
        ensures
            copy@ == self@,
    {
        let copy = self.prefix(self.components.len());
        assert(self@.components.take(self@.components.len() as int) =~= self@.components);
        copy
    }

    /// The components of the path, outermost first.
    pub fn components(&self) -> (names: Vec<String>)
        ensures
            views_of(names@) == self@.components,
    {
        copy_strings(&self.components)
    }

    /// The path as text. Read again, the text gives this path.
    pub fn to_string(&self) -> (text: String)
        ensures
            text@ == self@.text(),
            path_of(text@) == self@,
    {
        let mut text = String::new();
        proof {
            reveal_strlit("/");
            use_type_invariant(self);
            lemma_text_reads_back(self@);
        }
        if self.absolute {
            text.append("/");
        }
        let ghost lead = text@;
        assert(lead =~= if self.absolute {
            seq![SEPARATOR]
        } else {
            Seq::<char>::empty()
        });
        let mut i: usize = 0;
        assert(self@.components.take(0) =~= Seq::<Seq<char>>::empty());
        while i < self.components.len()
            invariant
                i <= self.components.len(),
                "/"@ == seq![SEPARATOR],
                text@ == lead + joined(self@.components.take(i as int)),
            decreases self.components.len() - i,
        {
            let ghost done = self@.components.take(i as int);
            let ghost next = self@.components.take(i + 1);
            proof {
                assert(next.drop_last() =~= done);
                assert(next.last() == self.components[i as int]@);
            }
            if i > 0 {
                text.append("/");
                assert(text@ =~= lead + (joined(done) + seq![SEPARATOR]));
            }
            text.append(self.components[i].as_str());
            proof {
                if i == 0 {
                    assert(done.len() == 0);
                    assert(joined(next) == next[0]);
                    assert(text@ =~= lead + joined(next));
                } else {
                    assert(text@ =~= lead + joined(next));
                }
            }
            i += 1;
        }
        assert(self@.components.take(self.components.len() as int) =~= self@.components);
        text
    }

    /// `other` taken from this path: an absolute `other` stands for itself, a
    /// relative one is appended to this path.
    pub fn join(&self, other: &FsPath) -> (path: FsPath)
        ensures
            path@ == self@.join(other@),
    {
        if other.absolute {
            return other.duplicate();
        }
        proof {
            use_type_invariant(self);
            use_type_invariant(other);
        }
        let mut components = copy_strings(&self.components);
        let mut i: usize = 0;
        while i < other.components.len()
            invariant
                i <= other.components.len(),
                views_of(components@) == self@.components + other@.components.take(i as int),
            decreases other.components.len() - i,
        {
            let ghost before = views_of(components@);
            components.push(other.components[i].clone());
            assert(views_of(components@) =~= before.push(other.components[i as int]@));
            assert(other@.components.take(i + 1) =~= other@.components.take(i as int).push(
                other.components[i as int]@,
            ));
            i += 1;
        }
        assert(other@.components.take(other.components.len() as int) =~= other@.components);
        assert forall|k: int| 0 <= k < components.len() implies is_component(
            #[trigger] views_of(components@)[k],
        ) by {
            if k < self@.components.len() {
                assert(is_component(self@.components[k]));
            } else {
                assert(is_component(other@.components[k - self@.components.len()]));
            }
        }
        FsPath { absolute: self.absolute, components }
    }

    /// The path that `relative` names below this one.
    pub fn child(&self, relative: &str) -> (path: FsPath)
        ensures
            path@ == self@.join(path_of(relative@)),
    {
        let below = FsPath::parse(relative);
        self.join(&below)
    }
}

/// Whether the components of `subpath` occur in `path` as one unbroken run of
/// whole components. A name that is only part of a component does not count,
/// and neither an empty `subpath` nor one longer than `path` occurs at all.
pub fn path_contains_subpath(path: &FsPath, subpath: &FsPath) -> (found: bool)
    ensures
        found == contains_subpath(path@.components, subpath@.components),
{
    let n = path.components.len();
    let m = subpath.components.len();
    if m == 0 || m > n {
        return false;
    }
    let mut at: usize = 0;
    while at <= n - m
        invariant
            0 < m <= n,
            n == path.components.len(),
            m == subpath.components.len(),
            at <= n - m + 1,
            forall|k: int| 0 <= k < at ==> !window_at(path@.components, subpath@.components, k),
        decreases n - m + 1 - at,
    {
        let mut j: usize = 0;
        let mut same = true;
        while j < m
            invariant
                at + m <= n,
                n == path.components.len(),
                m == subpath.components.len(),
                j <= m,
                same ==> forall|k: int|
                    0 <= k < j ==> path.components[at + k]@ == subpath.components[k]@,
                !same ==> !window_at(path@.components, subpath@.components, at as int),
            decreases m - j,
        {
            if same && path.components[at + j] != subpath.components[j] {
                same = false;
                proof {
                    let run = path@.components.subrange(at as int, at + m);
                    assert(run[j as int] == path.components[at + j]@);
                    assert(subpath@.components[j as int] == subpath.components[j as int]@);
                }
            }
            j += 1;
        }
        if same {
            proof {
                assert(path@.components.subrange(at as int, at + m) =~= subpath@.components);
                assert(window_at(path@.components, subpath@.components, at as int));
            }
            return true;
        }
        at += 1;
    }
    false
}

/// The root of the editor installation that `path` lies in: the walk goes up
/// from `path` itself until it meets a directory named `Editor`, and what
/// lies above that directory is the root. A path with no such directory on
/// the way up is a `PathError` that carries the path.
pub fn path_to_editor_root(path: &FsPath) -> (root: Result<FsPath, InstallError>)
    ensures
        match root {
            Ok(found) => editor_root(path@) == Some(found@),
            Err(error) => editor_root(path@) is None && error@ == InstallErrorModel::root(
                ErrorKind::PathError,
                path@.text(),
            ),
        },
{
    let editor = String::from_str("Editor");
    let mut end: usize = path.components.len();
    assert(path@.components.take(end as int) =~= path@.components);
    while end > 0
        invariant
            end <= path.components.len(),
            editor@ == editor_dir_name(),
            editor_root_of(path@.components) == editor_root_of(path@.components.take(end as int)),
        decreases end,
    {
        let ghost upto = path@.components.take(end as int);
        assert(upto.last() == path.components[end - 1]@);
        assert(upto.drop_last() =~= path@.components.take(end - 1));
        if path.components[end - 1] == editor {
            return Ok(path.prefix(end - 1));
        }
        end -= 1;
    }
    Err(InstallError::new(ErrorKind::PathError, path.to_string()))
}

/// Text without a separator is one piece.
pub proof fn lemma_segments_of_name(name: Seq<char>)
    requires
        forall|k: int| 0 <= k < name.len() ==> name[k] != SEPARATOR,
    ensures
        segments(name) == seq![name],
    decreases name.len(),
{
    if name.len() == 0 {
        assert(name =~= Seq::<char>::empty());
    } else {
        lemma_segments_of_name(name.drop_last());
        assert(name.drop_last().push(name.last()) =~= name);
        assert(seq![name.drop_last()].drop_last() =~= Seq::<Seq<char>>::empty());
        assert(Seq::<Seq<char>>::empty().push(name) =~= seq![name]);
    }
}

/// A lone separator stands between two empty pieces.
proof fn lemma_segments_of_separator()
    ensures
        segments(seq![SEPARATOR]) == seq![Seq::<char>::empty(), Seq::<char>::empty()],
{
    let lone = seq![SEPARATOR];
    assert(lone.drop_last() =~= Seq::<char>::empty());
    assert(segments(lone.drop_last()) == seq![Seq::<char>::empty()]);
    assert(segments(lone) == segments(lone.drop_last()).push(Seq::<char>::empty()));
    assert(seq![Seq::<char>::empty()].push(Seq::<char>::empty()) =~= seq![
        Seq::<char>::empty(),
        Seq::<char>::empty(),
    ]);
}

/// Cutting `left + right` into pieces cuts each side by itself, except that
/// the last piece of `left` and the first of `right` are one piece.
pub proof fn lemma_segments_concat(left: Seq<char>, right: Seq<char>)
    ensures
        segments(left).len() >= 1,
        segments(right).len() >= 1,
        segments(left + right) == segments(left).drop_last().push(
            segments(left).last() + segments(right).first(),
        ) + segments(right).drop_first(),
    decreases right.len(),
{
    lemma_segments_nonempty(left);
    lemma_segments_nonempty(right);
    let whole = left + right;
    let glued = segments(left).drop_last().push(segments(left).last() + segments(right).first());
    if right.len() == 0 {
        assert(whole =~= left);
        assert(segments(left).last() + Seq::<char>::empty() =~= segments(left).last());
        assert(glued =~= segments(left));
        assert(glued + segments(right).drop_first() =~= segments(left));
    } else {
        let shorter = right.drop_last();
        lemma_segments_concat(left, shorter);
        lemma_segments_nonempty(shorter);
        assert(whole.drop_last() =~= left + shorter);
        assert(whole.last() == right.last());
        let inner = segments(left).drop_last().push(
            segments(left).last() + segments(shorter).first(),
        );
        if right.last() == SEPARATOR {
            assert(segments(right).first() == segments(shorter).first());
            assert(segments(right).drop_first() =~= segments(shorter).drop_first().push(
                Seq::<char>::empty(),
            ));
            assert(segments(whole) =~= glued + segments(right).drop_first());
        } else if segments(shorter).len() == 1 {
            assert(segments(right) =~= seq![segments(shorter).last().push(right.last())]);
            assert(segments(shorter).drop_first() =~= Seq::<Seq<char>>::empty());
            assert(segments(right).drop_first() =~= Seq::<Seq<char>>::empty());
            assert((segments(left).last() + segments(shorter).first()).push(right.last())
                =~= segments(left).last() + segments(right).first());
            assert(segments(whole) =~= glued + segments(right).drop_first());
        } else {
            assert(segments(right).first() == segments(shorter).first());
            assert(segments(whole) =~= glued + segments(right).drop_first());
        }
    }
}

/// A single name is the one component of its own text.
proof fn lemma_components_of_name(name: Seq<char>)
    requires
        is_component(name),
    ensures
        components_of(name) == seq![name],
{
    lemma_segments_of_name(name);
    Seq::<Seq<char>>::empty().lemma_filter_push(name, names());
    reveal(Seq::filter);
    assert(Seq::<Seq<char>>::empty().push(name) =~= seq![name]);
    assert(Seq::<Seq<char>>::empty().filter(names()) =~= Seq::<Seq<char>>::empty());
    assert(Seq::<Seq<char>>::empty().push(name) =~= seq![name]);
}

/// Well-formed components, joined and cut again, are the same components.
pub proof fn lemma_components_of_joined(components: Seq<Seq<char>>)
    requires
        forall|i: int| 0 <= i < components.len() ==> is_component(#[trigger] components[i]),
    ensures
        components_of(joined(components)) == components,
        components.len() > 0 ==> joined(components).len() > 0 && joined(components)[0]
            != SEPARATOR,
    decreases components.len(),
{
    reveal(Seq::filter);
    if components.len() == 0 {
        assert(segments(Seq::<char>::empty()) =~= seq![Seq::<char>::empty()]);
        Seq::<Seq<char>>::empty().lemma_filter_push(Seq::<char>::empty(), names());
        assert(Seq::<Seq<char>>::empty().push(Seq::<char>::empty()) =~= seq![
            Seq::<char>::empty(),
        ]);
        assert(components =~= Seq::<Seq<char>>::empty());
    } else if components.len() == 1 {
        assert(is_component(components[0]));
        lemma_components_of_name(components[0]);
        assert(components =~= seq![components[0]]);
    } else {
        let above = components.drop_last();
        let name = components.last();
        assert(is_component(name));
        assert forall|i: int| 0 <= i < above.len() implies is_component(#[trigger] above[i]) by {
            assert(above[i] == components[i]);
        }
        lemma_components_of_joined(above);
        let head = joined(above) + seq![SEPARATOR];
        // head ends a piece; name is one more piece
        lemma_segments_concat(joined(above), seq![SEPARATOR]);
        lemma_segments_of_separator();
        assert(segments(joined(above)).last() + Seq::<char>::empty() =~= segments(
            joined(above),
        ).last());
        assert(segments(head) =~= segments(joined(above)).push(Seq::<char>::empty()));
        lemma_segments_concat(head, name);
        lemma_segments_of_name(name);
        assert(Seq::<char>::empty() + name =~= name);
        assert(segments(head + name) =~= segments(joined(above)).push(name));
        segments(joined(above)).lemma_filter_push(name, names());
        assert(components =~= above.push(name));
        assert(joined(components) == head + name);
    }
}

/// Writing a well-formed path as text and reading the text gives the path
/// back.
pub proof fn lemma_text_reads_back(path: PathModel)
    requires
        path.well_formed(),
    ensures
        path_of(path.text()) == path,
{
    lemma_components_of_joined(path.components);
    let body = joined(path.components);
    if path.absolute {
        lemma_segments_concat(seq![SEPARATOR], body);
        lemma_segments_of_separator();
        assert(Seq::<char>::empty() + segments(body).first() =~= segments(body).first());
        assert(segments(seq![SEPARATOR] + body) =~= seq![Seq::<char>::empty()] + segments(body));
        Seq::filter_distributes_over_add(seq![Seq::<char>::empty()], segments(body), names());
        reveal(Seq::filter);
        Seq::<Seq<char>>::empty().lemma_filter_push(Seq::<char>::empty(), names());
        assert(Seq::<Seq<char>>::empty().push(Seq::<char>::empty()) =~= seq![
            Seq::<char>::empty(),
        ]);
        assert(components_of(path.text()) =~= path.components);
    }
}

/// The path that lies `below` the directory `Editor` of the installation at
/// `root`.
pub open spec fn below_editor(root: PathModel, below: Seq<Seq<char>>) -> PathModel {
    PathModel {
        absolute: root.absolute,
        components: root.components + seq![editor_dir_name()] + below,
    }
}

proof fn lemma_editor_root_of_components(root: Seq<Seq<char>>, below: Seq<Seq<char>>)
    requires
        forall|i: int| 0 <= i < below.len() ==> below[i] != editor_dir_name(),
    ensures
        editor_root_of(root + seq![editor_dir_name()] + below) == Some(root),
    decreases below.len(),
{
    let whole = root + seq![editor_dir_name()] + below;
    if below.len() == 0 {
        assert(whole.drop_last() =~= root);
    } else {
        assert(whole.last() == below.last());
        assert(whole.drop_last() =~= root + seq![editor_dir_name()] + below.drop_last());
        lemma_editor_root_of_components(root, below.drop_last());
    }
}

/// Anywhere below the directory `Editor` of an installation, however deep,
/// the editor root is the root of that installation, as long as no directory
/// further down is named `Editor` itself.
pub proof fn lemma_editor_root_above_editor(root: PathModel, below: Seq<Seq<char>>)
    requires
        forall|i: int| 0 <= i < below.len() ==> below[i] != editor_dir_name(),
    ensures
        editor_root(below_editor(root, below)) == Some(root),
{
    lemma_editor_root_of_components(root.components, below);
}

/// A path has an editor root exactly when one of its components is named
/// `Editor`.
pub proof fn lemma_editor_root_exists(components: Seq<Seq<char>>)
    ensures
        editor_root_of(components) is Some <==> exists|i: int|
            0 <= i < components.len() && components[i] == editor_dir_name(),
    decreases components.len(),
{
    if components.len() > 0 {
        lemma_editor_root_exists(components.drop_last());
        if components.last() == editor_dir_name() {
            assert(components[components.len() - 1] == editor_dir_name());
        } else if editor_root_of(components.drop_last()) is Some {
            let i = choose|i: int|
                0 <= i < components.drop_last().len() && components.drop_last()[i]
                    == editor_dir_name();
            assert(components[i] == editor_dir_name());
        } else {
            assert forall|i: int| 0 <= i < components.len() implies components[i]
                != editor_dir_name() by {
                if i < components.len() - 1 {
                    assert(components.drop_last()[i] == components[i]);
                }
            }
        }
    }
}

/// An empty window, or one with more components than the path, occurs
/// nowhere in it.
pub proof fn lemma_window_must_fit(components: Seq<Seq<char>>, window: Seq<Seq<char>>)
    requires
        window.len() == 0 || window.len() > components.len(),
    ensures
        !contains_subpath(components, window),
{
}

/// A window occurs in a path exactly when the path is some components, then
/// the window, then some more components.
pub proof fn lemma_window_splits_path(components: Seq<Seq<char>>, window: Seq<Seq<char>>)
    requires
        window.len() > 0,
    ensures
        contains_subpath(components, window) <==> exists|before: Seq<Seq<char>>, after: Seq<Seq<char>>|
            components == before + window + after,
{
    if contains_subpath(components, window) {
        let at = choose|at: int| window_at(components, window, at);
        let before = components.take(at);
        let after = components.skip(at + window.len());
        assert(components =~= before + window + after);
    }
    if exists|before: Seq<Seq<char>>, after: Seq<Seq<char>>| components == before + window + after {
        let (before, after) = choose|before: Seq<Seq<char>>, after: Seq<Seq<char>>|
            components == before + window + after;
        assert(components.subrange(before.len() as int, (before.len() + window.len()) as int)
            =~= window);
        assert(window_at(components, window, before.len() as int));
    }
}

} // verus!
