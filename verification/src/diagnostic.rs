//! Compiler diagnostics: errors, warnings and notes with source locations.
use vstd::prelude::*;
use vstd::string::StringExecFns;

use crate::source::SourceFileId;
use crate::span::Span;

pub mod codes;

verus! {

/// Severity level of a diagnostic.
#[derive(Debug, Clone, Copy, PartialEq, Eq, Structural)]
pub enum DiagnosticSeverity {
    Error,
    Warning,
    Note,
}

/// Stable diagnostic code, used for tooling and documentation.
#[derive(Debug, Clone, Copy)]
pub struct DiagnosticCode(pub &'static str);

/// Additional span information attached to a diagnostic.
#[derive(Debug, Clone)]
pub struct DiagnosticLabel {
    pub span: Span,
    pub message: Option<String>,
    pub is_primary: bool,
}

/// The contents of a label, with its message as characters.
pub struct LabelView {
    pub span: Span,
    pub message: Option<Seq<char>>,
    pub is_primary: bool,
}

impl View for DiagnosticLabel {
    type V = LabelView;

    open spec fn view(&self) -> LabelView {
        LabelView {
            span: self.span,
            message: match self.message {
                Some(m) => Some(m@),
                None => None,
            },
            is_primary: self.is_primary,
        }
    }
}

/// A compiler diagnostic describing an error, a warning or a note.
#[derive(Debug, Clone)]
pub struct Diagnostic {
    pub file: Option<SourceFileId>,
    pub severity: DiagnosticSeverity,
    pub code: Option<DiagnosticCode>,
    pub message: String,
    pub primary_span: Option<Span>,
    pub labels: Vec<DiagnosticLabel>,
    pub notes: Vec<String>,
}

/// The contents of a diagnostic, with its texts as characters.
pub struct DiagnosticView {
    pub file: Option<SourceFileId>,
    pub severity: DiagnosticSeverity,
    pub code: Option<DiagnosticCode>,
    pub message: Seq<char>,
    pub primary_span: Option<Span>,
    pub labels: Seq<LabelView>,
    pub notes: Seq<Seq<char>>,
}

impl View for Diagnostic {
    type V = DiagnosticView;

    open spec fn view(&self) -> DiagnosticView {
        DiagnosticView {
            file: self.file,
            severity: self.severity,
            code: self.code,
            message: self.message@,
            primary_span: self.primary_span,
            labels: self.labels@.map_values(|l: DiagnosticLabel| l@),
            notes: self.notes@.map_values(|n: String| n@),
        }
    }
}

/// A diagnostic of the given severity and message, with nothing attached.
pub open spec fn bare_diagnostic(severity: DiagnosticSeverity, message: Seq<char>) -> DiagnosticView {
    DiagnosticView {
        file: None,
        severity,
        code: None,
        message,
        primary_span: None,
        labels: Seq::empty(),
        notes: Seq::empty(),
    }
}

impl DiagnosticView {
    /// The diagnostic associated with `file`.
    pub open spec fn with_file(self, file: SourceFileId) -> DiagnosticView {
        DiagnosticView { file: Some(file), ..self }
    }

    /// The diagnostic carrying `code`.
    pub open spec fn with_code(self, code: DiagnosticCode) -> DiagnosticView {
        DiagnosticView { code: Some(code), ..self }
    }

    /// The diagnostic with primary span `span`, registered as a primary label too.
    pub open spec fn with_primary_span(self, span: Span) -> DiagnosticView {
        DiagnosticView {
            primary_span: Some(span),
            labels: self.labels.push(LabelView { span, message: None, is_primary: true }),
            ..self
        }
    }

    /// The diagnostic with a secondary label `message` at `span`.
    pub open spec fn with_label(self, span: Span, message: Seq<char>) -> DiagnosticView {
        DiagnosticView {
            labels: self.labels.push(LabelView { span, message: Some(message), is_primary: false }),
            ..self
        }
    }

    /// The diagnostic with the note `note` added.
    pub open spec fn with_note(self, note: Seq<char>) -> DiagnosticView {
        DiagnosticView { notes: self.notes.push(note), ..self }
    }
}

impl Diagnostic {
    fn bare(severity: DiagnosticSeverity, message: String) -> (d: Diagnostic)
        ensures
            d@ == bare_diagnostic(severity, message@),
    {
        let d = Diagnostic {
            file: None,
            severity,
            code: None,
            message,
            primary_span: None,
            labels: Vec::new(),
            notes: Vec::new(),
        };
        assert(d@.labels =~= Seq::<LabelView>::empty());
        assert(d@.notes =~= Seq::<Seq<char>>::empty());
        d
    }

    /// Creates an error diagnostic with the given message.
    pub fn error(message: String) -> (d: Diagnostic)
        ensures
            d@ == bare_diagnostic(DiagnosticSeverity::Error, message@),
    {
        Self::bare(DiagnosticSeverity::Error, message)
    }

    /// Creates a warning diagnostic with the given message.
    pub fn warning(message: String) -> (d: Diagnostic)
        ensures
            d@ == bare_diagnostic(DiagnosticSeverity::Warning, message@),
    {
        Self::bare(DiagnosticSeverity::Warning, message)
    }

    /// Creates a note diagnostic with the given message.
    pub fn note(message: String) -> (d: Diagnostic)
        ensures
            d@ == bare_diagnostic(DiagnosticSeverity::Note, message@),
    {
        Self::bare(DiagnosticSeverity::Note, message)
    }

    /// Associates this diagnostic with a source file.
    pub fn with_file(self, file: SourceFileId) -> (d: Diagnostic)
        ensures
            d@ == self@.with_file(file),
    {
        let mut d = self;
        d.file = Some(file);
        d
    }

    /// Attaches a diagnostic code.
    pub fn with_code(self, code: DiagnosticCode) -> (d: Diagnostic)
        ensures
            d@ == self@.with_code(code),
    {
        let mut d = self;
        d.code = Some(code);
        d
    }

    /// Sets the primary span; it is registered as a primary label as well.
    pub fn with_primary_span(self, span: Span) -> (d: Diagnostic)
        ensures
            d@ == self@.with_primary_span(span),
    {
        let mut d = self;
        d.primary_span = Some(span);
        d.labels.push(DiagnosticLabel { span, message: None, is_primary: true });
        assert(d@.labels =~= self@.labels.push(LabelView { span, message: None, is_primary: true }));
        d
    }

    /// Adds a secondary label with a message.
    pub fn with_label(self, span: Span, message: String) -> (d: Diagnostic)
        ensures
            d@ == self@.with_label(span, message@),
    {
        let mut d = self;
        let ghost m = message@;
        d.labels.push(DiagnosticLabel { span, message: Some(message), is_primary: false });
        assert(d@.labels =~= self@.labels.push(LabelView { span, message: Some(m), is_primary: false }));
        d
    }

    /// Adds a note.
    pub fn with_note(self, note: String) -> (d: Diagnostic)
        ensures
            d@ == self@.with_note(note@),
    {
        let mut d = self;
        let ghost n = note@;
        d.notes.push(note);
        assert(d@.notes =~= self@.notes.push(n));
        d
    }
}

/// A collection of diagnostics.
#[derive(Debug, Clone)]
pub struct Diagnostics {
    items: Vec<Diagnostic>,
}

impl View for Diagnostics {
    type V = Seq<DiagnosticView>;

    closed spec fn view(&self) -> Seq<DiagnosticView> {
        self.items@.map_values(|d: Diagnostic| d@)
    }
}

impl Diagnostics {
    /// A collection holding `items`, in order.
    pub fn new(items: Vec<Diagnostic>) -> (ds: Diagnostics)
        ensures
            ds@ == items@.map_values(|d: Diagnostic| d@),
    {
        Diagnostics { items }
    }

    /// A collection holding the one diagnostic `diagnostic`.
    pub fn single(diagnostic: Diagnostic) -> (ds: Diagnostics)
        ensures
            ds@ == seq![diagnostic@],
    {
        let ghost d = diagnostic@;
        let mut items = Vec::new();
        items.push(diagnostic);
        let ds = Diagnostics { items };
        assert(ds@ =~= seq![d]);
        ds
    }

    /// Whether the collection holds no diagnostic.
    pub fn is_empty(&self) -> (b: bool)
        ensures
            b == (self@.len() == 0),
    {
        self.items.len() == 0
    }

    /// The number of diagnostics held.
    pub fn len(&self) -> (n: usize)
        ensures
            n == self@.len(),
    {
        self.items.len()
    }

    /// Appends one diagnostic.
    pub fn push(&mut self, diagnostic: Diagnostic)
        ensures
            final(self)@ == old(self)@.push(diagnostic@),
    {
        let ghost d = diagnostic@;
        self.items.push(diagnostic);
        assert(self@ =~= old(self)@.push(d));
    }

    /// Appends copies of all diagnostics of `other`, in order.
    pub fn extend(&mut self, other: &Diagnostics)
        ensures
            final(self)@ == old(self)@ + other@,
    {
        let n = other.items.len();
        let ghost base = self.items@.len();
        let mut i: usize = 0;
        while i < n
            invariant
                n == other.items@.len(),
                i <= n,
                base == old(self).items@.len(),
                self.items@.len() == base + i,
                forall|k: int| 0 <= k < base ==> #[trigger] self.items@[k]@ == old(self).items@[k]@,
                forall|k: int|
                    0 <= k < i ==> #[trigger] self.items@[base + k]@ == other.items@[k]@,
            decreases n - i,
        {
            let d = clone_diagnostic(&other.items[i]);
            self.items.push(d);
            i = i + 1;
        }
        assert forall|k: int| 0 <= k < self@.len() implies #[trigger] self@[k] == (old(self)@
            + other@)[k] by {
            if k >= base {
                assert(self.items@[base + (k - base)]@ == other.items@[k - base]@);
            }
        }
        assert(self@ =~= old(self)@ + other@);
    }

    /// The diagnostic at `index`.
    pub fn get(&self, index: usize) -> (d: &Diagnostic)
        requires
            index < self@.len(),
        ensures
            d@ == self@[index as int],
    {
        &self.items[index]
    }

    /// The diagnostics in order, to be walked through.
    pub fn as_slice(&self) -> (s: &[Diagnostic])
        ensures
            s@.map_values(|d: Diagnostic| d@) == self@,
    {
        self.items.as_slice()
    }
}

/// A copy of a string.
pub fn clone_string(s: &String) -> (c: String)
    ensures
        c@ == s@,
{
    s.clone()
}

/// A copy of a label.
pub fn clone_label(l: &DiagnosticLabel) -> (c: DiagnosticLabel)
    ensures
        c@ == l@,
{
    let message = match &l.message {
        Some(m) => Some(clone_string(m)),
        None => None,
    };
    DiagnosticLabel { span: l.span, message, is_primary: l.is_primary }
}

/// A copy of a diagnostic.
pub fn clone_diagnostic(d: &Diagnostic) -> (c: Diagnostic)
    ensures
        c@ == d@,
{
    let mut labels: Vec<DiagnosticLabel> = Vec::new();
    let mut i: usize = 0;
    while i < d.labels.len()
        invariant
            i <= d.labels@.len(),
            labels@.len() == i,
            forall|k: int| 0 <= k < i ==> #[trigger] labels@[k]@ == d.labels@[k]@,
        decreases d.labels@.len() - i,
    {
        let l = clone_label(&d.labels[i]);
        labels.push(l);
        i = i + 1;
    }
    assert(labels@.map_values(|l: DiagnosticLabel| l@) =~= d.labels@.map_values(|l: DiagnosticLabel| l@));
    let mut notes: Vec<String> = Vec::new();
    let mut j: usize = 0;
    while j < d.notes.len()
        invariant
            j <= d.notes@.len(),
            notes@.len() == j,
            forall|k: int| 0 <= k < j ==> #[trigger] notes@[k]@ == d.notes@[k]@,
        decreases d.notes@.len() - j,
    {
        let n = clone_string(&d.notes[j]);
        notes.push(n);
        j = j + 1;
    }
    assert(notes@.map_values(|n: String| n@) =~= d.notes@.map_values(|n: String| n@));
    Diagnostic {
        file: d.file,
        severity: d.severity,
        code: d.code,
        message: clone_string(&d.message),
        primary_span: d.primary_span,
        labels,
        notes,
    }
}

} // verus!
