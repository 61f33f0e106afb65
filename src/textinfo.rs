use vstd::prelude::*;

use crate::content::{option_copy, Author};

verus! {

/// Horizontal alignment of a line of text.
#[derive(PartialEq, Eq, Structural, Clone, Copy, Debug)]
pub enum TextAlign {
    Left,
    Start,
    Center,
}

/// What a line of annotated text holds.
#[derive(Debug)]
pub enum TextInfoType {
    /// Nothing is shown.
    Empty,
    /// A plain run of text.
    Plain(String),
    /// One run that, when activated, hands `id` to the click handler.
    Clickable { text: String, id: String },
    /// Names joined with ", " and a final " y "; linked names are clickable.
    Authors(Vec<Author>),
}

/// A line of annotated text together with its alignment.
#[derive(Debug)]
pub struct TextInfo {
    pub align: TextAlign,
    pub ty: TextInfoType,
}

/// One run of a rendered line: plain text, or text bound to a target id.
#[derive(Debug, PartialEq, Eq)]
pub struct TextFragment {
    pub text: String,
    pub target: Option<String>,
}

/// The mathematical value of a fragment.
pub struct FragmentView {
    pub text: Seq<char>,
    pub target: Option<Seq<char>>,
}

pub open spec fn option_view(o: Option<String>) -> Option<Seq<char>> {
    match o {
        Some(s) => Some(s@),
        None => None,
    }
}

impl View for TextFragment {
    type V = FragmentView;

    open spec fn view(&self) -> FragmentView {
        FragmentView { text: self.text@, target: option_view(self.target) }
    }
}

pub open spec fn fragments_view(v: Seq<TextFragment>) -> Seq<FragmentView> {
    v.map_values(|f: TextFragment| f@)
}

pub open spec fn plain_span(s: Seq<char>) -> FragmentView {
    FragmentView { text: s, target: None }
}

/// An author's name, linked to the author's id when there is one.
pub open spec fn author_span(a: Author) -> FragmentView {
    FragmentView { text: a.name@, target: option_view(a.id) }
}

/// The separator placed before entry `i` of `n` joined names (`i > 0`).
pub open spec fn author_separator(i: int, n: int) -> Seq<char> {
    if i == n - 1 {
        " y "@
    } else {
        ", "@
    }
}

/// The runs of the first `k` names of `a`, separated as in the whole list.
pub open spec fn authors_prefix(a: Seq<Author>, k: nat) -> Seq<FragmentView>
    decreases k,
{
    if k == 0 {
        Seq::empty()
    } else if k == 1 {
        seq![author_span(a[0])]
    } else {
        authors_prefix(a, (k - 1) as nat) + seq![
            plain_span(author_separator(k - 1, a.len() as int)),
            author_span(a[k - 1]),
        ]
    }
}

/// The runs of a joined list of names.
pub open spec fn author_fragments(a: Seq<Author>) -> Seq<FragmentView> {
    authors_prefix(a, a.len())
}

/// The runs of a line of annotated text.
pub open spec fn fragments_of(t: TextInfo) -> Seq<FragmentView> {
    match t.ty {
        TextInfoType::Empty => Seq::empty(),
        TextInfoType::Plain(s) => seq![plain_span(s@)],
        TextInfoType::Clickable { text, id } => seq![FragmentView { text: text@, target: Some(id@) }],
        TextInfoType::Authors(v) => author_fragments(v@),
    }
}

pub open spec fn is_none(t: TextInfo) -> bool {
    t.ty is Empty
}

pub open spec fn is_plain(t: TextInfo, s: Seq<char>, align: TextAlign) -> bool {
    &&& t.ty matches TextInfoType::Plain(x) && x@ == s
    &&& t.align == align
}

pub open spec fn is_clickable(t: TextInfo, text: Seq<char>, id: Seq<char>) -> bool {
    t.ty matches TextInfoType::Clickable { text: x, id: y } && x@ == text && y@ == id
}

pub open spec fn is_authors(t: TextInfo, a: Seq<Author>) -> bool {
    t.ty matches TextInfoType::Authors(v) && v@ == a
}

impl Default for TextInfo {
    fn default() -> (r: TextInfo)
        ensures
            is_plain(r, Seq::empty(), TextAlign::Left),
    {
        TextInfo { align: TextAlign::Left, ty: TextInfoType::Plain(String::new()) }
    }
}

impl TextInfo {
    /// A line that shows nothing.
    pub fn none() -> (r: TextInfo)
        ensures
            is_none(r),
            r.align == TextAlign::Left,
    {
        TextInfo { align: TextAlign::Left, ty: TextInfoType::Empty }
    }

    /// A plain line; without an alignment it starts at the line's start.
    pub fn plain(content: String, align: Option<TextAlign>) -> (r: TextInfo)
        ensures
            is_plain(r, content@, if let Some(a) = align { a } else { TextAlign::Start }),
    {
        let align = match align {
            Some(a) => a,
            None => TextAlign::Start,
        };
        TextInfo { align, ty: TextInfoType::Plain(content) }
    }

    /// A single clickable run that activates `id`.
    pub fn clickable(id: String, content: String) -> (r: TextInfo)
        ensures
            is_clickable(r, content@, id@),
            r.align == TextAlign::Left,
    {
        TextInfo { align: TextAlign::Left, ty: TextInfoType::Clickable { text: content, id } }
    }

    /// A joined list of authors.
    pub fn authors(content: Vec<Author>) -> (r: TextInfo)
        ensures
            is_authors(r, content@),
            r.align == TextAlign::Left,
    {
        TextInfo { align: TextAlign::Left, ty: TextInfoType::Authors(content) }
    }

    /// The runs of this line, in reading order. A clickable run carries the
    /// id that the renderer hands to its activation handler.
    pub fn get_inline_elements(&self) -> (r: Vec<TextFragment>)
        ensures
            fragments_view(r@) == fragments_of(*self),
    {
        match &self.ty {
            TextInfoType::Empty => {
                let r: Vec<TextFragment> = Vec::new();
                assert(fragments_view(r@) =~= fragments_of(*self));
                r
            },
            TextInfoType::Plain(s) => {
                let r = vec![TextFragment { text: s.clone(), target: None }];
                assert(fragments_view(r@) =~= fragments_of(*self));
                r
            },
            TextInfoType::Clickable { text, id } => {
                let r = vec![TextFragment { text: text.clone(), target: Some(id.clone()) }];
                assert(fragments_view(r@) =~= fragments_of(*self));
                r
            },
            TextInfoType::Authors(authors) => author_elements(authors),
        }
    }
}

/// The runs of a joined list of names.
pub fn author_elements(authors: &Vec<Author>) -> (r: Vec<TextFragment>)
    ensures
        fragments_view(r@) == author_fragments(authors@),
{
    let n = authors.len();
    let mut elements: Vec<TextFragment> = Vec::new();
    if n == 0 {
        assert(fragments_view(elements@) =~= author_fragments(authors@));
        return elements;
    }
    elements.push(TextFragment {
        text: authors[0].name.clone(),
        target: option_copy(&authors[0].id),
    });
    assert(fragments_view(elements@) =~= authors_prefix(authors@, 1));
    let mut i: usize = 1;
    while i < n
        invariant
            n == authors@.len(),
            1 <= i <= n,
            fragments_view(elements@) == authors_prefix(authors@, i as nat),
        decreases n - i,
    {
        let sep = if i == n - 1 {
            String::from_str(" y ")
        } else {
            String::from_str(", ")
        };
        let ghost before = elements@;
        elements.push(TextFragment { text: sep, target: None });
        elements.push(TextFragment {
            text: authors[i].name.clone(),
            target: option_copy(&authors[i].id),
        });
        proof {
            let k = (i + 1) as nat;
            assert(fragments_view(elements@) =~= fragments_view(before) + seq![
                plain_span(author_separator(k - 1, n as int)),
                author_span(authors@[k - 1]),
            ]);
        }
        i = i + 1;
    }
    elements
}

} // verus!
