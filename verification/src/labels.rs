//! Mapping completion-item categories to display labels: a fixed table from
//! completion kind to highlight name, and a two-part display span whose
//! filter range covers the completion's name.

use vstd::prelude::*;

verus! {

/// The category a completion item carries, as the language server reports it.
#[derive(Clone, Copy, PartialEq, Eq, Structural, Debug)]
pub enum CompletionKind {
    Text,
    Method,
    Function,
    Constructor,
    Field,
    Variable,
    Class,
    Interface,
    Module,
    Property,
    Unit,
    Value,
    Enum,
    Keyword,
    Snippet,
    Color,
    File,
    Reference,
    Folder,
    EnumMember,
    Constant,
    Struct,
    Event,
    Operator,
    TypeParameter,
}

/// The fixed table from completion kind to highlight name; `None` for a kind
/// this tool does not label.
pub open spec fn spec_highlight_name(kind: CompletionKind) -> Option<Seq<char>> {
    match kind {
        CompletionKind::Class => Some("type"@),
        CompletionKind::Interface => Some("type"@),
        CompletionKind::Constructor => Some("type"@),
        CompletionKind::Constant => Some("constant"@),
        CompletionKind::Function => Some("function"@),
        CompletionKind::Method => Some("function"@),
        CompletionKind::Property => Some("tag"@),
        CompletionKind::Field => Some("tag"@),
        CompletionKind::Variable => Some("type"@),
        CompletionKind::Keyword => Some("keyword"@),
        CompletionKind::Value => Some("tag"@),
        _ => None,
    }
}

/// The highlight name for a completion kind, per the fixed table.
pub fn highlight_name(kind: CompletionKind) -> (r: Option<&'static str>)
    ensures
        r is Some <==> spec_highlight_name(kind) is Some,
        r matches Some(s) ==> spec_highlight_name(kind) == Some(s@),
{
    match kind {
        CompletionKind::Class => Some("type"),
        CompletionKind::Interface => Some("type"),
        CompletionKind::Constructor => Some("type"),
        CompletionKind::Constant => Some("constant"),
        CompletionKind::Function => Some("function"),
        CompletionKind::Method => Some("function"),
        CompletionKind::Property => Some("tag"),
        CompletionKind::Field => Some("tag"),
        CompletionKind::Variable => Some("type"),
        CompletionKind::Keyword => Some("keyword"),
        CompletionKind::Value => Some("tag"),
        _ => None,
    }
}

/// One run of display text, optionally highlighted.
pub struct CodeLabelSpan {
    pub text: String,
    pub highlight_name: Option<String>,
}

/// The view of a display span.
pub struct CodeLabelSpanView {
    pub text: Seq<char>,
    pub highlight_name: Option<Seq<char>>,
}

impl View for CodeLabelSpan {
    type V = CodeLabelSpanView;

    open spec fn view(&self) -> CodeLabelSpanView {
        CodeLabelSpanView { text: self.text@, highlight_name: self.highlight_name.deep_view() }
    }
}

impl DeepView for CodeLabelSpan {
    type V = CodeLabelSpanView;

    open spec fn deep_view(&self) -> CodeLabelSpanView {
        self.view()
    }
}

/// A display label for a completion item: its spans and the character range
/// used for filtering.
pub struct CodeLabel {
    pub code: String,
    pub spans: Vec<CodeLabelSpan>,
    pub filter_range_start: usize,
    pub filter_range_end: usize,
}

/// The view of a display label.
pub struct CodeLabelView {
    pub code: Seq<char>,
    pub spans: Seq<CodeLabelSpanView>,
    pub filter_range_start: int,
    pub filter_range_end: int,
}

impl View for CodeLabel {
    type V = CodeLabelView;

    open spec fn view(&self) -> CodeLabelView {
        CodeLabelView {
            code: self.code@,
            spans: self.spans.deep_view(),
            filter_range_start: self.filter_range_start as int,
            filter_range_end: self.filter_range_end as int,
        }
    }
}

/// The label owed to a completion with name `label`, detail `detail` and
/// highlight name `highlight`: the highlighted name, then an unhighlighted
/// space and detail when a detail is present, filtered on the name's
/// character length.
pub open spec fn spec_label(
    label: Seq<char>,
    detail: Option<Seq<char>>,
    highlight: Seq<char>,
) -> CodeLabelView {
    CodeLabelView {
        code: Seq::<char>::empty(),
        spans: match detail {
            Some(d) => seq![
                CodeLabelSpanView { text: label, highlight_name: Some(highlight) },
                CodeLabelSpanView { text: " "@, highlight_name: None },
                CodeLabelSpanView { text: d, highlight_name: None },
            ],
            None => seq![CodeLabelSpanView { text: label, highlight_name: Some(highlight) }],
        },
        filter_range_start: 0,
        filter_range_end: label.len() as int,
    }
}

/// The display label for a completion item, or `None` when the item carries
/// no kind or a kind outside the fixed table.
pub fn label_for_completion(
    kind: Option<CompletionKind>,
    label: String,
    detail: Option<String>,
) -> (r: Option<CodeLabel>)
    ensures
        r is Some <==> (kind matches Some(k) && spec_highlight_name(k) is Some),
        r matches Some(cl) ==> (kind matches Some(k) && spec_highlight_name(k) matches Some(h)
            && cl@ == spec_label(label@, detail.deep_view(), h)),
{
    let k = match kind {
        Some(k) => k,
        None => {
            return None;
        },
    };
    let highlight = match highlight_name(k) {
        Some(h) => h,
        None => {
            return None;
        },
    };
    let len = label.as_str().unicode_len();
    let ghost label_view = label@;
    let ghost detail_view = detail.deep_view();
    let ghost highlight_view = highlight@;
    let name_span = CodeLabelSpan { text: label, highlight_name: Some(highlight.to_owned()) };
    let mut spans: Vec<CodeLabelSpan> = Vec::new();
    spans.push(name_span);
    match detail {
        Some(d) => {
            spans.push(CodeLabelSpan { text: " ".to_owned(), highlight_name: None });
            spans.push(CodeLabelSpan { text: d, highlight_name: None });
            proof {
                assert(spans.deep_view() =~= spec_label(
                    label_view,
                    detail_view,
                    highlight_view,
                ).spans);
            }
        },
        None => {
            proof {
                assert(spans.deep_view() =~= spec_label(
                    label_view,
                    detail_view,
                    highlight_view,
                ).spans);
            }
        },
    }
    let out = CodeLabel {
        code: String::new(),
        spans,
        filter_range_start: 0,
        filter_range_end: len,
    };
    Some(out)
}

} // verus!
