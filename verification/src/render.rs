use vstd::prelude::*;
use crate::diagnostic::Diagnostic;
use crate::diagnostic::DiagnosticView;
use crate::diagnostic::SliceView;
use crate::level::AnnotationKind;
use crate::level::Level;
use crate::text::line_seq;
use crate::text::split_lines;
use annotate_snippets::display_list::DisplayList;
use annotate_snippets::display_list::FormatOptions;
use annotate_snippets::snippet::Annotation;
use annotate_snippets::snippet::AnnotationType;
use annotate_snippets::snippet::Slice as EngineSlice;
use annotate_snippets::snippet::Snippet;

verus! {

/// The title record handed to the rendering engine: an identifier naming
/// the tool, the title text, and an annotation kind.
pub struct TitleInput {
    pub id: String,
    pub label: String,
    pub kind: AnnotationKind,
}

pub ghost struct TitleInputView {
    pub id: Seq<char>,
    pub label: Seq<char>,
    pub kind: AnnotationKind,
}

impl View for TitleInput {
    type V = TitleInputView;

    open spec fn view(&self) -> TitleInputView {
        TitleInputView { id: self.id@, label: self.label@, kind: self.kind }
    }
}

/// One footer record handed to the rendering engine.
pub struct FooterInput {
    pub label: String,
    pub kind: AnnotationKind,
}

pub ghost struct FooterInputView {
    pub label: Seq<char>,
    pub kind: AnnotationKind,
}

impl View for FooterInput {
    type V = FooterInputView;

    open spec fn view(&self) -> FooterInputView {
        FooterInputView { label: self.label@, kind: self.kind }
    }
}

/// One slice record handed to the rendering engine: source text, a 1-based
/// starting line, and an optional origin label.
pub struct SliceInput {
    pub source: String,
    pub line_start: usize,
    pub origin: Option<String>,
}

pub ghost struct SliceInputView {
    pub source: Seq<char>,
    pub line_start: usize,
    pub origin: Option<Seq<char>>,
}

impl View for SliceInput {
    type V = SliceInputView;

    open spec fn view(&self) -> SliceInputView {
        SliceInputView {
            source: self.source@,
            line_start: self.line_start,
            origin: match self.origin {
                Some(o) => Some(o@),
                None => None,
            },
        }
    }
}

/// The whole structured input of one render: optional title, ordered footer
/// records, ordered slice records.
pub struct SnippetInput {
    pub title: Option<TitleInput>,
    pub footer: Vec<FooterInput>,
    pub slices: Vec<SliceInput>,
}

pub ghost struct SnippetInputView {
    pub title: Option<TitleInputView>,
    pub footer: Seq<FooterInputView>,
    pub slices: Seq<SliceInputView>,
}

impl View for SnippetInput {
    type V = SnippetInputView;

    open spec fn view(&self) -> SnippetInputView {
        SnippetInputView {
            title: match self.title {
                Some(t) => Some(t@),
                None => None,
            },
            footer: self.footer@.map_values(|f: FooterInput| f@),
            slices: self.slices@.map_values(|s: SliceInput| s@),
        }
    }
}

/// The fixed identifier that tags the title, so that the origin of the
/// message is unambiguous in mixed output streams.
pub open spec fn tool_id() -> Seq<char> {
    "bindgen"@
}

/// The fixed informational remark appended to every render, never supplied
/// by the caller.
pub open spec fn attribution() -> Seq<char> {
    "This diagnostic was generated by bindgen."@
}

/// The engine footer record for one caller-supplied remark.
pub open spec fn footer_input_of(f: (Seq<char>, Level)) -> FooterInputView {
    FooterInputView { label: f.0, kind: f.1.spec_annotation_kind() }
}

/// The starting line handed to the engine, clamped so that numbering the
/// lines of `src` from it stays within `usize`: the engine counts one line
/// number per line of the source, starting at the starting line.
pub open spec fn clamped_line_start(line: usize, src: Seq<char>) -> usize {
    let count = line_seq(src).len() as int;
    if count > usize::MAX as int {
        0
    } else if line as int + count > usize::MAX as int {
        (usize::MAX as int - count) as usize
    } else {
        line
    }
}

/// The engine slice record for one slice: its source text, its starting
/// line defaulted to 1 when unset and clamped to keep the engine's line
/// numbering within `usize`, and its origin label if any.
pub open spec fn slice_input_of(s: SliceView) -> SliceInputView {
    let src = match s.source {
        Some(t) => t,
        None => Seq::empty(),
    };
    SliceInputView {
        source: src,
        line_start: clamped_line_start(
            match s.line {
                Some(l) => l,
                None => 1,
            },
            src,
        ),
        origin: s.filename,
    }
}

/// The engine slice records of a slice list: one record per slice that has
/// source text, in the list's order; slices without source text leave no
/// record at all.
pub open spec fn slice_inputs_of(ss: Seq<SliceView>) -> Seq<SliceInputView>
    decreases ss.len(),
{
    if ss.len() == 0 {
        Seq::empty()
    } else {
        let rest = slice_inputs_of(ss.drop_last());
        if ss.last().source is Some {
            rest.push(slice_input_of(ss.last()))
        } else {
            rest
        }
    }
}

/// The engine input of a diagnostic: the title tagged with the fixed tool
/// identifier, the caller's footer remarks followed by the fixed
/// attribution remark, and one slice record per slice with source text.
pub open spec fn snippet_of(d: DiagnosticView) -> SnippetInputView {
    SnippetInputView {
        title: match d.title {
            Some((m, l)) => Some(
                TitleInputView { id: tool_id(), label: m, kind: l.spec_annotation_kind() },
            ),
            None => None,
        },
        footer: d.footer.map_values(|f: (Seq<char>, Level)| footer_input_of(f)).push(
            FooterInputView { label: attribution(), kind: AnnotationKind::Info },
        ),
        slices: slice_inputs_of(d.slices),
    }
}

/// What the engine prints for a snippet input and a color flag. The engine
/// formats from the snippet record and the flag alone, so the result is a
/// function of the two.
pub uninterp spec fn rendered_of(input: SnippetInputView, color: bool) -> Seq<char>;

#[verifier::external_type_specification]
#[verifier::external_body]
pub struct ExAnnotationType(AnnotationType);

/// Relies on annotate_snippets' AnnotationType: the engine's own annotation
/// kinds, one per kind of this crate.
#[verifier::external_body]
fn engine_kind(k: &AnnotationKind) -> (r: AnnotationType) {
    match k {
        AnnotationKind::Error => AnnotationType::Error,
        AnnotationKind::Warning => AnnotationType::Warning,
        AnnotationKind::Info => AnnotationType::Info,
        AnnotationKind::Note => AnnotationType::Note,
        AnnotationKind::Help => AnnotationType::Help,
    }
}

/// Relies on annotate_snippets' DisplayList: `DisplayList::from` together
/// with `to_string` formats the snippet from the record and the color flag
/// alone, deterministically, so the result is named `rendered_of`. The
/// engine numbers each slice's lines by incrementing a counter from
/// `line_start`, once per line, so each slice's starting line plus its line
/// count must stay within `usize`; the `requires` leaves the overflowing
/// inputs out.
#[verifier::external_body]
fn engine_render(input: &SnippetInput, color: bool) -> (r: String)
    requires
        forall|k: int|
            0 <= k < input@.slices.len() ==> (#[trigger] input@.slices[k]).line_start as int
                + line_seq(input@.slices[k].source).len() <= usize::MAX as int,
    ensures
        r@ == rendered_of(input@, color),
{
    let title = input.title.as_ref().map(|t| Annotation { id: Some(&t.id), label: Some(&t.label), annotation_type: engine_kind(&t.kind) });
    let footer = input.footer.iter().map(|f| Annotation { id: None, label: Some(&f.label), annotation_type: engine_kind(&f.kind) }).collect();
    let slices = input.slices.iter().map(|s| EngineSlice { source: &s.source, line_start: s.line_start, origin: s.origin.as_deref(), annotations: vec![], fold: false }).collect();
    let opt = FormatOptions { color, ..Default::default() };
    DisplayList::from(Snippet { title, footer, slices, opt }).to_string()
}

impl Diagnostic {
    /// Shape this diagnostic into the engine's structured input. Every
    /// record's starting line plus its source's line count fits in `usize`,
    /// as the engine's line numbering needs.
    pub fn build_snippet_input(&self) -> (r: SnippetInput)
        ensures
            r@ == snippet_of(self@),
            forall|k: int|
                0 <= k < r@.slices.len() ==> (#[trigger] r@.slices[k]).line_start as int
                    + line_seq(r@.slices[k].source).len() <= usize::MAX as int,
    {
        let title = match &self.title {
            Some((m, l)) => Some(
                TitleInput {
                    id: String::from_str("bindgen"),
                    label: m.clone(),
                    kind: l.annotation_kind(),
                },
            ),
            None => None,
        };
        let mut footer: Vec<FooterInput> = Vec::new();
        let mut i: usize = 0;
        while i < self.footer.len()
            invariant
                footer@.len() == i <= self.footer@.len(),
                forall|k: int|
                    0 <= k < i ==> footer@[k]@ == footer_input_of(self@.footer[k]),
            decreases self.footer@.len() - i,
        {
            let f = &self.footer[i];
            footer.push(FooterInput { label: f.0.clone(), kind: f.1.annotation_kind() });
            i += 1;
        }
        footer.push(
            FooterInput {
                label: String::from_str("This diagnostic was generated by bindgen."),
                kind: AnnotationKind::Info,
            },
        );
        let mut slices: Vec<SliceInput> = Vec::new();
        let mut j: usize = 0;
        proof {
            assert(self@.slices.take(0) =~= Seq::<SliceView>::empty());
            assert(slices@.map_values(|s: SliceInput| s@) =~= Seq::<SliceInputView>::empty());
        }
        while j < self.slices.len()
            invariant
                j <= self.slices@.len(),
                slices@.map_values(|s: SliceInput| s@) == slice_inputs_of(
                    self@.slices.take(j as int),
                ),
                forall|k: int|
                    0 <= k < slices@.len() ==> (#[trigger] slices@[k])@.line_start as int
                        + line_seq(slices@[k]@.source).len() <= usize::MAX as int,
            decreases self.slices@.len() - j,
        {
            let ghost m0 = slices@.map_values(|s: SliceInput| s@);
            proof {
                assert(self@.slices.take(j as int + 1).drop_last() =~= self@.slices.take(
                    j as int,
                ));
                assert(self@.slices.take(j as int + 1).last() == self@.slices[j as int]);
            }
            let sl = &self.slices[j];
            match &sl.source {
                Some(src) => {
                    let line_req = match &sl.line {
                        Some(l) => *l,
                        None => 1,
                    };
                    let count = split_lines(src.as_str()).len();
                    let line_start = if line_req > usize::MAX - count {
                        usize::MAX - count
                    } else {
                        line_req
                    };
                    proof {
                        assert(count == line_seq(src@).len());
                        assert(line_start == clamped_line_start(line_req, src@));
                    }
                    let origin = match &sl.filename {
                        Some(f) => Some(f.clone()),
                        None => None,
                    };
                    slices.push(SliceInput { source: src.clone(), line_start, origin });
                    proof {
                        assert(slices@.map_values(|s: SliceInput| s@) =~= m0.push(
                            slice_input_of(self@.slices[j as int]),
                        ));
                    }
                },
                None => {
                    proof {
                        assert(slice_inputs_of(self@.slices.take(j as int + 1)) == m0);
                    }
                },
            }
            j += 1;
        }
        proof {
            assert(self@.slices.take(self.slices@.len() as int) =~= self@.slices);
        }
        let r = SnippetInput { title, footer, slices };
        proof {
            assert(r@.footer =~= snippet_of(self@).footer);
        }
        r
    }

    /// Render this diagnostic with color enabled: the engine's display
    /// string for its snippet input.
    pub fn render(&self) -> (r: String)
        ensures
            r@ == rendered_of(snippet_of(self@), true),
    {
        let input = self.build_snippet_input();
        engine_render(&input, true)
    }
}

/// One build-tool warning directive: a rendered line behind the fixed
/// carriage-return prefix that hides the build tool's own line decoration.
pub open spec fn warning_directive(line: Seq<char>) -> Seq<char> {
    "cargo:warning="@ + "\r        \r"@ + line
}

/// What one render hands its sink: in build-script mode one warning
/// directive per rendered line, for the build tool's output stream; in
/// interactive mode the whole rendered block followed by one blank line,
/// for the error stream, in a single write.
pub enum Emission {
    BuildScript(Vec<String>),
    Interactive(String),
}

impl Diagnostic {
    /// Render this diagnostic and shape the result for the chosen sink.
    pub fn display(&self, build_script: bool) -> (e: Emission)
        ensures
            ({
                let rendered = rendered_of(snippet_of(self@), true);
                match e {
                    Emission::BuildScript(ls) => build_script && ls@.map_values(|l: String| l@)
                        == line_seq(rendered).map_values(|l: Seq<char>| warning_directive(l)),
                    Emission::Interactive(s) => !build_script && s@ == rendered + "\n\n"@,
                }
            }),
    {
        let rendered = self.render();
        if build_script {
            let lines = split_lines(rendered.as_str());
            let mut out: Vec<String> = Vec::new();
            let mut i: usize = 0;
            while i < lines.len()
                invariant
                    out@.len() == i <= lines@.len(),
                    forall|k: int| 0 <= k < i ==> out@[k]@ == warning_directive(lines@[k]@),
                decreases lines@.len() - i,
            {
                let mut d = String::from_str("cargo:warning=");
                d.append("\r        \r");
                d.append(lines[i].as_str());
                out.push(d);
                i += 1;
            }
            proof {
                assert(out@.map_values(|l: String| l@) =~= line_seq(rendered@).map_values(
                    |l: Seq<char>| warning_directive(l),
                ));
            }
            Emission::BuildScript(out)
        } else {
            let mut s = rendered;
            s.append("\n\n");
            Emission::Interactive(s)
        }
    }
}

/// Law: every render carries the fixed attribution remark as the last
/// footer record, after all caller-supplied remarks, and carries the
/// title's text as the label of the title record.
pub proof fn lemma_attribution_always_present(d: DiagnosticView)
    ensures
        snippet_of(d).footer.len() == d.footer.len() + 1,
        snippet_of(d).footer.last() == (FooterInputView {
            label: attribution(),
            kind: AnnotationKind::Info,
        }),
        forall|k: int|
            0 <= k < d.footer.len() ==> snippet_of(d).footer[k] == footer_input_of(d.footer[k]),
        d.title matches Some((m, l)) ==> snippet_of(d).title == Some(
            TitleInputView { id: tool_id(), label: m, kind: l.spec_annotation_kind() },
        ),
{
}

/// Law: a slice without source text is excluded from rendering: an origin
/// label that only sourceless slices carry reaches no record handed to the
/// engine.
pub proof fn lemma_sourceless_slice_excluded(ss: Seq<SliceView>, origin: Seq<char>)
    requires
        forall|i: int|
            0 <= i < ss.len() && ss[i].source is Some ==> ss[i].filename != Some(origin),
    ensures
        forall|k: int|
            0 <= k < slice_inputs_of(ss).len() ==> slice_inputs_of(ss)[k].origin != Some(origin),
    decreases ss.len(),
{
    if ss.len() > 0 {
        assert forall|i: int|
            0 <= i < ss.drop_last().len() && ss.drop_last()[i].source is Some implies ss.drop_last()[i].filename
            != Some(origin) by {
            assert(ss.drop_last()[i] == ss[i]);
        }
        lemma_sourceless_slice_excluded(ss.drop_last(), origin);
        if ss.last().source is Some {
            assert(ss.last() == ss[ss.len() - 1]);
        }
    }
}

/// Law: exactly the slices with source text yield records, no empty
/// placeholders among them: the records of a slice list are its sourced
/// slices, in order, each shaped by `slice_input_of`.
pub proof fn lemma_records_exactly_sourced(ss: Seq<SliceView>)
    ensures
        slice_inputs_of(ss) == ss.filter(|s: SliceView| s.source is Some).map_values(
            |s: SliceView| slice_input_of(s),
        ),
    decreases ss.len(),
{
    reveal(Seq::filter);
    let pred = |s: SliceView| s.source is Some;
    let f = |s: SliceView| slice_input_of(s);
    if ss.len() == 0 {
        assert(ss.filter(pred).map_values(f) =~= Seq::<SliceInputView>::empty());
    } else {
        lemma_records_exactly_sourced(ss.drop_last());
        if pred(ss.last()) {
            assert(ss.filter(pred) == ss.drop_last().filter(pred).push(ss.last()));
            assert(ss.filter(pred).map_values(f) =~= ss.drop_last().filter(pred).map_values(
                f,
            ).push(f(ss.last())));
        } else {
            assert(ss.filter(pred) == ss.drop_last().filter(pred));
        }
    }
}

/// Law: appending slices appends their records: the records of a slice list
/// followed by more slices are the records of the list followed by the
/// records of the added slices, so earlier slices never move behind later
/// ones.
pub proof fn lemma_slice_inputs_concat(ss: Seq<SliceView>, tt: Seq<SliceView>)
    ensures
        slice_inputs_of(ss + tt) == slice_inputs_of(ss) + slice_inputs_of(tt),
    decreases tt.len(),
{
    if tt.len() == 0 {
        assert(ss + tt =~= ss);
        assert(slice_inputs_of(ss) + slice_inputs_of(tt) =~= slice_inputs_of(ss));
    } else {
        lemma_slice_inputs_concat(ss, tt.drop_last());
        assert((ss + tt).drop_last() =~= ss + tt.drop_last());
        assert((ss + tt).last() == tt.last());
        if tt.last().source is Some {
            assert(slice_inputs_of(ss) + slice_inputs_of(tt.drop_last()).push(
                slice_input_of(tt.last()),
            ) =~= (slice_inputs_of(ss) + slice_inputs_of(tt.drop_last())).push(
                slice_input_of(tt.last()),
            ));
        }
    }
}

/// Law: slices keep their insertion order: when every slice has source
/// text, the engine receives one record per slice, in the same order.
pub proof fn lemma_slices_in_order(ss: Seq<SliceView>)
    requires
        forall|i: int| 0 <= i < ss.len() ==> ss[i].source is Some,
    ensures
        slice_inputs_of(ss).len() == ss.len(),
        forall|i: int| 0 <= i < ss.len() ==> slice_inputs_of(ss)[i] == slice_input_of(ss[i]),
    decreases ss.len(),
{
    if ss.len() > 0 {
        assert forall|i: int| 0 <= i < ss.drop_last().len() implies ss.drop_last()[i].source
            is Some by {
            assert(ss.drop_last()[i] == ss[i]);
        }
        lemma_slices_in_order(ss.drop_last());
        assert(ss.last() == ss[ss.len() - 1]);
    }
}

/// Law: rendering is repeatable: the same diagnostic rendered twice, with
/// the same color flag, yields the same string, and so the same emission
/// content in either sink mode.
pub proof fn lemma_render_repeatable(d: DiagnosticView, r1: Seq<char>, r2: Seq<char>)
    requires
        r1 == rendered_of(snippet_of(d), true),
        r2 == rendered_of(snippet_of(d), true),
    ensures
        r1 == r2,
{
}

} // verus!
