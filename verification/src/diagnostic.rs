use vstd::prelude::*;
use crate::level::Level;
use crate::text::append_dec;
use crate::text::dec_seq;

verus! {

/// One excerpt of a source file to display under a diagnostic: optional
/// excerpt text, optional origin label, optional 1-based starting line.
pub struct Slice {
    pub source: Option<String>,
    pub filename: Option<String>,
    pub line: Option<usize>,
}

/// What a `Slice` holds, as mathematical values.
pub ghost struct SliceView {
    pub source: Option<Seq<char>>,
    pub filename: Option<Seq<char>>,
    pub line: Option<usize>,
}

impl View for Slice {
    type V = SliceView;

    open spec fn view(&self) -> SliceView {
        SliceView {
            source: match self.source {
                Some(s) => Some(s@),
                None => None,
            },
            filename: match self.filename {
                Some(f) => Some(f@),
                None => None,
            },
            line: self.line,
        }
    }
}

/// The origin label of a slice located in `name` at `line` and `col`:
/// the file name with a `:line:col` suffix.
pub open spec fn origin_label(name: Seq<char>, line: usize, col: usize) -> Seq<char> {
    name + ":"@ + dec_seq(line as int) + ":"@ + dec_seq(col as int)
}

impl Slice {
    /// An empty slice: no source text, no origin, no starting line.
    pub fn new() -> (s: Slice)
        ensures
            s@ == (SliceView { source: None, filename: None, line: None }),
    {
        Slice { source: None, filename: None, line: None }
    }

    /// Set the source code of the excerpt; a second call overwrites.
    pub fn with_source(self, source: String) -> (r: Slice)
        ensures
            r@ == (SliceView { source: Some(source@), ..self@ }),
    {
        Slice { source: Some(source), filename: self.filename, line: self.line }
    }

    /// Set the file, line and column at once: the origin label becomes the
    /// file name with a `:line:col` suffix, and `line` becomes the starting
    /// line number.
    pub fn with_location(self, name: String, line: usize, col: usize) -> (r: Slice)
        ensures
            r@.source == self@.source,
            r@.filename == Some(origin_label(name@, line, col)),
            r@.line == Some(line),
    {
        let mut name = name;
        name.append(":");
        append_dec(&mut name, line);
        name.append(":");
        append_dec(&mut name, col);
        Slice { source: self.source, filename: Some(name), line: Some(line) }
    }
}

impl Default for Slice {
    fn default() -> (s: Slice)
        ensures
            s@ == (SliceView { source: None, filename: None, line: None }),
    {
        Slice::new()
    }
}

/// One complete reportable message: an optional title, ordered source
/// excerpts, and ordered footer remarks.
pub struct Diagnostic {
    pub title: Option<(String, Level)>,
    pub slices: Vec<Slice>,
    pub footer: Vec<(String, Level)>,
}

/// What a `Diagnostic` holds, as mathematical values.
pub ghost struct DiagnosticView {
    pub title: Option<(Seq<char>, Level)>,
    pub slices: Seq<SliceView>,
    pub footer: Seq<(Seq<char>, Level)>,
}

impl View for Diagnostic {
    type V = DiagnosticView;

    open spec fn view(&self) -> DiagnosticView {
        DiagnosticView {
            title: match self.title {
                Some((m, l)) => Some((m@, l)),
                None => None,
            },
            slices: self.slices@.map_values(|s: Slice| s@),
            footer: self.footer@.map_values(|f: (String, Level)| (f.0@, f.1)),
        }
    }
}

impl Diagnostic {
    /// An empty diagnostic: no title, no slices, no footer. It is legal to
    /// render it; only the fixed attribution remark comes out.
    pub fn new() -> (d: Diagnostic)
        ensures
            d@ == (DiagnosticView { title: None, slices: Seq::empty(), footer: Seq::empty() }),
    {
        let d = Diagnostic { title: None, slices: Vec::new(), footer: Vec::new() };
        proof {
            assert(d@.slices =~= Seq::<SliceView>::empty());
            assert(d@.footer =~= Seq::<(Seq<char>, Level)>::empty());
        }
        d
    }

    /// Set the title and its level; a second call overwrites the first.
    pub fn with_title(self, title: String, level: Level) -> (r: Diagnostic)
        ensures
            r@.title == Some((title@, level)),
            r@.slices == self@.slices,
            r@.footer == self@.footer,
    {
        Diagnostic { title: Some((title, level)), slices: self.slices, footer: self.footer }
    }

    /// Append a fully built slice; insertion order is display order.
    pub fn add_slice(self, slice: Slice) -> (r: Diagnostic)
        ensures
            r@.title == self@.title,
            r@.slices == self@.slices.push(slice@),
            r@.footer == self@.footer,
    {
        let mut slices = self.slices;
        slices.push(slice);
        let r = Diagnostic { title: self.title, slices, footer: self.footer };
        proof {
            assert(r@.slices =~= self@.slices.push(slice@));
        }
        r
    }

    /// Append a footer remark with its own level; insertion order is display
    /// order.
    pub fn add_annotation(self, msg: String, level: Level) -> (r: Diagnostic)
        ensures
            r@.title == self@.title,
            r@.slices == self@.slices,
            r@.footer == self@.footer.push((msg@, level)),
    {
        let mut footer = self.footer;
        footer.push((msg, level));
        let r = Diagnostic { title: self.title, slices: self.slices, footer };
        proof {
            assert(r@.footer =~= self@.footer.push((msg@, level)));
        }
        r
    }
}

impl Default for Diagnostic {
    fn default() -> (d: Diagnostic)
        ensures
            d@ == (DiagnosticView { title: None, slices: Seq::empty(), footer: Seq::empty() }),
    {
        Diagnostic::new()
    }
}

} // verus!
