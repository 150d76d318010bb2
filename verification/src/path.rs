//! Filesystem paths as the sequence of components that `Path::components`
//! yields, with the operations the tooling performs on them: `join` of a single
//! name, `parent`, `file_name`, extension tests and display.

use vstd::prelude::*;
use crate::text::{chars_of, ends_with, has_suffix};

verus! {

broadcast use vstd::string::group_string_axioms;

/// The separator convention of the platform a path belongs to.
#[derive(Clone, Copy, Debug, PartialEq, Eq, Structural)]
pub enum PathStyle {
    Unix,
    Windows,
}

impl PathStyle {
    /// The main separator of the style (`std::path::MAIN_SEPARATOR`).
    pub open spec fn sep(self) -> char {
        match self {
            PathStyle::Unix => '/',
            PathStyle::Windows => '\\',
        }
    }
}

/// One component of a path.
#[derive(Clone, Debug)]
pub enum PathPart {
    /// A Windows prefix such as `C:` or `\\server\share`, kept as its text.
    Prefix(String),
    /// The root directory.
    Root,
    /// A leading `.`.
    Current,
    /// `..`.
    Parent,
    /// An ordinary name.
    Normal(String),
}

/// The mathematical value of a [`PathPart`].
pub enum PartView {
    Prefix(Seq<char>),
    Root,
    Current,
    Parent,
    Normal(Seq<char>),
}

impl View for PathPart {
    type V = PartView;

    open spec fn view(&self) -> PartView {
        match self {
            PathPart::Prefix(s) => PartView::Prefix(s@),
            PathPart::Root => PartView::Root,
            PathPart::Current => PartView::Current,
            PathPart::Parent => PartView::Parent,
            PathPart::Normal(s) => PartView::Normal(s@),
        }
    }
}

/// A component that names something: anything but a prefix or the root.
/// `Path::parent` only strips such a component, and display puts a separator
/// between two of them.
pub open spec fn is_named(p: PartView) -> bool {
    p is Current || p is Parent || p is Normal
}

/// How a component reads in a path's display.
pub open spec fn part_text(p: PartView, sep: char) -> Seq<char> {
    match p {
        PartView::Prefix(s) => s,
        PartView::Root => seq![sep],
        PartView::Current => seq!['.'],
        PartView::Parent => seq!['.', '.'],
        PartView::Normal(s) => s,
    }
}

/// The display of a sequence of components: each component's text, with a
/// separator between two consecutive named components.
pub open spec fn render_parts(parts: Seq<PartView>, sep: char) -> Seq<char>
    decreases parts.len(),
{
    if parts.len() == 0 {
        Seq::empty()
    } else {
        let init = parts.drop_last();
        let glue = if init.len() > 0 && is_named(init.last()) && is_named(parts.last()) {
            seq![sep]
        } else {
            Seq::empty()
        };
        render_parts(init, sep) + glue + part_text(parts.last(), sep)
    }
}

/// Whether `s` can be joined onto a path as exactly one more ordinary
/// component, on either platform: non-empty, not `.` or `..`, and free of
/// `/`, `\` and `:`.
pub open spec fn is_component_name(s: Seq<char>) -> bool {
    &&& s.len() > 0
    &&& s != seq!['.']
    &&& s != seq!['.', '.']
    &&& forall|i: int| 0 <= i < s.len() ==> #[trigger] s[i] != '/' && s[i] != '\\' && s[i] != ':'
}

/// A path: its platform's separator style and its components.
#[derive(Clone, Debug)]
pub struct SdkPath {
    pub style: PathStyle,
    pub parts: Vec<PathPart>,
}

/// The mathematical value of an [`SdkPath`].
#[verifier::ext_equal]
pub struct PathView {
    pub style: PathStyle,
    pub parts: Seq<PartView>,
}

impl View for SdkPath {
    type V = PathView;

    open spec fn view(&self) -> PathView {
        PathView { style: self.style, parts: self.parts@.map_values(|p: PathPart| p@) }
    }
}

/// `p.join(name)` for a single component name.
pub open spec fn joined(p: PathView, name: Seq<char>) -> PathView {
    PathView { style: p.style, parts: p.parts.push(PartView::Normal(name)) }
}

/// `p.parent()`: the path without its last component, when that component
/// names something.
pub open spec fn parent_of(p: PathView) -> Option<PathView> {
    if p.parts.len() > 0 && is_named(p.parts.last()) {
        Some(PathView { style: p.style, parts: p.parts.drop_last() })
    } else {
        None
    }
}

/// `p.file_name()`: the last component when it is an ordinary name.
pub open spec fn file_name_of(p: PathView) -> Option<Seq<char>> {
    if p.parts.len() > 0 && p.parts.last() is Normal {
        Some(p.parts.last()->Normal_0)
    } else {
        None
    }
}

/// `p.display()`.
pub open spec fn displayed(p: PathView) -> Seq<char> {
    render_parts(p.parts, p.style.sep())
}

/// Whether `p.extension() == Some(ext)` for an extension `ext` that holds
/// no `.`: the file name ends in `.` followed by `ext`, and something comes
/// before that dot.
pub open spec fn has_extension(p: PathView, ext: Seq<char>) -> bool {
    match file_name_of(p) {
        Some(n) => n.len() > ext.len() + 1 && has_suffix(n, seq!['.'] + ext),
        None => false,
    }
}

impl PathPart {
    /// A copy of the component.
    pub fn duplicate(&self) -> (r: PathPart)
        ensures
            r@ == self@,
    {
        match self {
            PathPart::Prefix(s) => PathPart::Prefix(s.clone()),
            PathPart::Root => PathPart::Root,
            PathPart::Current => PathPart::Current,
            PathPart::Parent => PathPart::Parent,
            PathPart::Normal(s) => PathPart::Normal(s.clone()),
        }
    }

    /// Whether the component names something (see [`is_named`]).
    pub fn named(&self) -> (b: bool)
        ensures
            b == is_named(self@),
    {
        match self {
            PathPart::Prefix(_) | PathPart::Root => false,
            _ => true,
        }
    }

    fn append_text(&self, out: &mut String, style: PathStyle)
        ensures
            final(out)@ == old(out)@ + part_text(self@, style.sep()),
    {
        proof {
            reveal_strlit("/");
            reveal_strlit("\\");
            reveal_strlit(".");
            reveal_strlit("..");
        }
        match self {
            PathPart::Prefix(s) => out.append(s.as_str()),
            PathPart::Root => append_sep(out, style),
            PathPart::Current => out.append("."),
            PathPart::Parent => out.append(".."),
            PathPart::Normal(s) => out.append(s.as_str()),
        }
    }
}

fn append_sep(out: &mut String, style: PathStyle)
    ensures
        final(out)@ == old(out)@ + seq![style.sep()],
{
    proof {
        reveal_strlit("/");
        reveal_strlit("\\");
    }
    match style {
        PathStyle::Unix => out.append("/"),
        PathStyle::Windows => out.append("\\"),
    }
}

impl SdkPath {
    /// The empty path of the given style.
    pub fn empty(style: PathStyle) -> (r: SdkPath)
        ensures
            r@ == (PathView { style, parts: Seq::empty() }),
    {
        let r = SdkPath { style, parts: Vec::new() };
        assert(r@.parts =~= Seq::<PartView>::empty());
        r
    }

    /// A copy of the path.
    pub fn duplicate(&self) -> (r: SdkPath)
        ensures
            r@ == self@,
    {
        let mut parts: Vec<PathPart> = Vec::new();
        let n = self.parts.len();
        let mut i: usize = 0;
        while i < n
            invariant
                n == self.parts.len(),
                i <= n,
                parts@.len() == i,
                forall|j: int| 0 <= j < i ==> (#[trigger] parts@[j])@ == self.parts@[j]@,
            decreases n - i,
        {
            parts.push(self.parts[i].duplicate());
            i = i + 1;
        }
        let r = SdkPath { style: self.style, parts };
        assert(r@.parts =~= self@.parts);
        r
    }

    /// The path with one more ordinary component, `name` (`Path::join`).
    pub fn join(&self, name: &str) -> (r: SdkPath)
        requires
            is_component_name(name@),
        ensures
            r@ == joined(self@, name@),
    {
        let mut r = self.duplicate();
        r.parts.push(PathPart::Normal(name.to_owned()));
        assert(r@.parts =~= joined(self@, name@).parts);
        r
    }

    /// The path without its last component, when that component names
    /// something (`Path::parent`).
    pub fn parent(&self) -> (r: Option<SdkPath>)
        ensures
            match r {
                Some(q) => parent_of(self@) == Some(q@),
                None => parent_of(self@) is None,
            },
    {
        let n = self.parts.len();
        if n == 0 || !self.parts[n - 1].named() {
            return None;
        }
        let mut parts: Vec<PathPart> = Vec::new();
        let mut i: usize = 0;
        while i < n - 1
            invariant
                n == self.parts.len(),
                n > 0,
                i <= n - 1,
                parts@.len() == i,
                forall|j: int| 0 <= j < i ==> (#[trigger] parts@[j])@ == self.parts@[j]@,
            decreases n - 1 - i,
        {
            parts.push(self.parts[i].duplicate());
            i = i + 1;
        }
        let r = SdkPath { style: self.style, parts };
        assert(r@.parts =~= self@.parts.drop_last());
        Some(r)
    }

    /// The last component, when it is an ordinary name (`Path::file_name`).
    pub fn file_name(&self) -> (r: Option<String>)
        ensures
            match r {
                Some(n) => file_name_of(self@) == Some(n@),
                None => file_name_of(self@) is None,
            },
    {
        let n = self.parts.len();
        if n == 0 {
            return None;
        }
        match &self.parts[n - 1] {
            PathPart::Normal(s) => Some(s.clone()),
            _ => None,
        }
    }

    /// Whether the path's extension is `ext`, for an `ext` without `.`
    /// (`path.extension() == Some(ext)`).
    pub fn extension_is(&self, ext: &str) -> (b: bool)
        ensures
            b == has_extension(self@, ext@),
    {
        match self.file_name() {
            Some(n) => {
                let mut dotted = String::new();
                proof {
                    reveal_strlit(".");
                }
                dotted.append(".");
                dotted.append(ext);
                assert(dotted@ =~= seq!['.'] + ext@);
                let nc = chars_of(n.as_str());
                let ec = chars_of(ext);
                ec.len() < nc.len() && nc.len() - ec.len() > 1 && ends_with(
                    n.as_str(),
                    dotted.as_str(),
                )
            },
            None => false,
        }
    }

    /// The path as `Path::display` shows it.
    pub fn display(&self) -> (r: String)
        ensures
            r@ == displayed(self@),
    {
        let mut out = String::new();
        let n = self.parts.len();
        let ghost pv = self@.parts;
        let ghost sep = self.style.sep();
        let mut i: usize = 0;
        while i < n
            invariant
                n == self.parts.len(),
                pv == self@.parts,
                pv.len() == n,
                sep == self.style.sep(),
                i <= n,
                out@ == render_parts(pv.take(i as int), sep),
            decreases n - i,
        {
            let ghost before = out@;
            if i > 0 && self.parts[i - 1].named() && self.parts[i].named() {
                append_sep(&mut out, self.style);
            }
            self.parts[i].append_text(&mut out, self.style);
            proof {
                let t = pv.take(i + 1);
                assert(t.drop_last() =~= pv.take(i as int));
                assert(t.last() == pv[i as int]);
                if i > 0 {
                    assert(t.drop_last().last() == pv[i - 1]);
                }
            }
            i = i + 1;
        }
        assert(pv.take(n as int) =~= pv);
        out
    }
}

/// Joining a name and taking the parent gives the path back.
pub proof fn law_parent_of_joined(p: PathView, name: Seq<char>)
    ensures
        parent_of(joined(p, name)) == Some(p),
        file_name_of(joined(p, name)) == Some(name),
{
    assert(joined(p, name).parts.drop_last() =~= p.parts);
}

/// Display puts the separator between a name and the named component before
/// it, and shows a root as the separator: joining a name onto a path that
/// ends in a name shows as the path, the separator, then the name.
pub proof fn law_display_of_joined(p: PathView, name: Seq<char>)
    ensures
        p.parts.len() > 0 && is_named(p.parts.last()) ==> displayed(joined(p, name)) == displayed(
            p,
        ) + seq![p.style.sep()] + name,
        p.parts == seq![PartView::Root] ==> displayed(joined(p, name)) == seq![p.style.sep()]
            + name,
        displayed(PathView { style: p.style, parts: seq![PartView::Root] }) == seq![p.style.sep()],
        p.style == PathStyle::Unix ==> p.style.sep() == '/',
        p.style == PathStyle::Windows ==> p.style.sep() == '\\',
{
    let j = joined(p, name);
    assert(j.parts.drop_last() =~= p.parts);
    let r = seq![PartView::Root];
    assert(r.drop_last() =~= Seq::<PartView>::empty());
    assert(r.last() == PartView::Root);
    assert(render_parts(Seq::<PartView>::empty(), p.style.sep()) == Seq::<char>::empty());
    assert(render_parts(r, p.style.sep()) =~= seq![p.style.sep()]);
}

/// A file `<stem>.<ext>` with a non-empty stem has extension `ext`, and a
/// path with extension `ext` is named something non-empty, a dot, then `ext`.
pub proof fn law_extension(dir: PathView, stem: Seq<char>, ext: Seq<char>, p: PathView)
    ensures
        stem.len() > 0 ==> has_extension(joined(dir, stem + seq!['.'] + ext), ext),
        has_extension(p, ext) ==> {
            let n = file_name_of(p)->Some_0;
            n.len() > ext.len() + 1 && n == n.take(n.len() - ext.len() - 1) + seq!['.'] + ext
        },
{
    law_parent_of_joined(dir, stem + seq!['.'] + ext);
    let n = stem + seq!['.'] + ext;
    assert(n =~= stem + (seq!['.'] + ext));
    crate::text::law_suffix(stem, seq!['.'] + ext, n);
    if has_extension(p, ext) {
        let m = file_name_of(p)->Some_0;
        crate::text::law_suffix(m, seq!['.'] + ext, m);
        assert(m.take(m.len() - (seq!['.'] + ext).len()) + (seq!['.'] + ext) =~= m.take(
            m.len() - ext.len() - 1,
        ) + seq!['.'] + ext);
    }
}

/// Display of prefixes, the current directory and the parent: a drive
/// prefix is followed directly by a name, a prefix and a root by the
/// separator, `.` and `..` read as such; a path of only a root or of no
/// components has no parent.
pub proof fn law_display_parts(style: PathStyle, prefix: Seq<char>, name: Seq<char>)
    ensures
        displayed(PathView { style, parts: seq![PartView::Prefix(prefix), PartView::Normal(name)] })
            == prefix + name,
        displayed(
            PathView {
                style,
                parts: seq![PartView::Prefix(prefix), PartView::Root, PartView::Normal(name)],
            },
        ) == prefix + seq![style.sep()] + name,
        displayed(PathView { style, parts: seq![PartView::Current, PartView::Normal(name)] })
            == seq!['.', style.sep()] + name,
        displayed(PathView { style, parts: seq![PartView::Parent] }) == seq!['.', '.'],
        parent_of(PathView { style, parts: seq![PartView::Root] }) is None,
        parent_of(PathView { style, parts: Seq::empty() }) is None,
        parent_of(PathView { style, parts: seq![PartView::Normal(name)] }) == Some(
            PathView { style, parts: Seq::<PartView>::empty() },
        ),
{
    let sep = style.sep();
    let e = Seq::<PartView>::empty();
    assert(render_parts(e, sep) == Seq::<char>::empty());
    let a = seq![PartView::Prefix(prefix)];
    assert(a.drop_last() =~= e);
    assert(render_parts(a, sep) =~= prefix);
    let b = seq![PartView::Prefix(prefix), PartView::Normal(name)];
    assert(b.drop_last() =~= a);
    assert(render_parts(b, sep) =~= prefix + name);
    let c = seq![PartView::Prefix(prefix), PartView::Root];
    assert(c.drop_last() =~= a);
    assert(render_parts(c, sep) =~= prefix + seq![sep]);
    let d = seq![PartView::Prefix(prefix), PartView::Root, PartView::Normal(name)];
    assert(d.drop_last() =~= c);
    assert(render_parts(d, sep) =~= prefix + seq![sep] + name);
    let f = seq![PartView::Current];
    assert(f.drop_last() =~= e);
    assert(render_parts(f, sep) =~= seq!['.']);
    let g = seq![PartView::Current, PartView::Normal(name)];
    assert(g.drop_last() =~= f);
    assert(render_parts(g, sep) =~= seq!['.', sep] + name);
    let h = seq![PartView::Parent];
    assert(h.drop_last() =~= e);
    assert(render_parts(h, sep) =~= seq!['.', '.']);
    assert(seq![PartView::Normal(name)].drop_last() =~= e);
}

} // verus!
