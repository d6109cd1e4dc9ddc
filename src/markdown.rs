use crate::cmark::{markdown_events, markdown_events_of, MdEvent, MdTag};
use crate::models::{links_view, Link, LinkView};
use vstd::prelude::*;

verus! {

/// Text attributes of a span. Attributes that are active together combine by
/// union, as bit flags would.
#[derive(Debug, Clone, Copy, PartialEq, Eq)]
pub struct SpanStyle {
    pub bold: bool,
    pub italic: bool,
    pub underline: bool,
    pub crossed_out: bool,
}

pub open spec fn plain_style() -> SpanStyle {
    SpanStyle { bold: false, italic: false, underline: false, crossed_out: false }
}

pub open spec fn bold_style() -> SpanStyle {
    SpanStyle { bold: true, ..plain_style() }
}

pub open spec fn italic_style() -> SpanStyle {
    SpanStyle { italic: true, ..plain_style() }
}

pub open spec fn underline_style() -> SpanStyle {
    SpanStyle { underline: true, ..plain_style() }
}

pub open spec fn crossed_out_style() -> SpanStyle {
    SpanStyle { crossed_out: true, ..plain_style() }
}

pub open spec fn style_union(a: SpanStyle, b: SpanStyle) -> SpanStyle {
    SpanStyle {
        bold: a.bold || b.bold,
        italic: a.italic || b.italic,
        underline: a.underline || b.underline,
        crossed_out: a.crossed_out || b.crossed_out,
    }
}

impl SpanStyle {
    /// No attribute set.
    pub fn plain() -> (r: SpanStyle)
        ensures
            r == plain_style(),
    {
        SpanStyle { bold: false, italic: false, underline: false, crossed_out: false }
    }

    /// The attributes of `self` and of `other` together.
    pub fn union(self, other: SpanStyle) -> (r: SpanStyle)
        ensures
            r == style_union(self, other),
    {
        SpanStyle {
            bold: self.bold || other.bold,
            italic: self.italic || other.italic,
            underline: self.underline || other.underline,
            crossed_out: self.crossed_out || other.crossed_out,
        }
    }
}

/// A run of text with one style.
#[derive(Debug, Clone)]
pub struct StyledSpan {
    pub content: String,
    pub style: SpanStyle,
}

pub struct SpanView {
    pub content: Seq<char>,
    pub style: SpanStyle,
}

impl View for StyledSpan {
    type V = SpanView;

    open spec fn view(&self) -> SpanView {
        SpanView { content: self.content@, style: self.style }
    }
}

pub open spec fn spans_view(spans: Seq<StyledSpan>) -> Seq<SpanView> {
    spans.map_values(|s: StyledSpan| s@)
}

/// One rendered line: its spans, left to right.
#[derive(Debug, Clone)]
pub struct StyledLine {
    pub spans: Vec<StyledSpan>,
}

impl View for StyledLine {
    type V = Seq<SpanView>;

    open spec fn view(&self) -> Seq<SpanView> {
        spans_view(self.spans@)
    }
}

pub open spec fn lines_view(lines: Seq<StyledLine>) -> Seq<Seq<SpanView>> {
    lines.map_values(|l: StyledLine| l@)
}

/// The glyph that opens each list item.
pub open spec fn bullet() -> Seq<char> {
    seq!['\u{2022}', ' ']
}

/// Number of characters on a line.
pub open spec fn line_width(spans: Seq<SpanView>) -> nat
    decreases spans.len(),
{
    if spans.len() == 0 {
        0
    } else {
        line_width(spans.drop_last()) + spans.last().content.len()
    }
}

/// The union of every style on the stack.
pub open spec fn combined_style(styles: Seq<SpanStyle>) -> SpanStyle
    decreases styles.len(),
{
    if styles.len() == 0 {
        plain_style()
    } else {
        style_union(combined_style(styles.drop_last()), styles.last())
    }
}

/// Where the renderer stands after a prefix of the token stream: the finished
/// lines, the line being built, the active styles, the destination of the
/// enclosing link if any, and the links found so far.
pub struct RenderState {
    pub lines: Seq<Seq<SpanView>>,
    pub current: Seq<SpanView>,
    pub styles: Seq<SpanStyle>,
    pub link: Option<Seq<char>>,
    pub links: Seq<LinkView>,
}

pub open spec fn initial_render_state() -> RenderState {
    RenderState {
        lines: Seq::empty(),
        current: Seq::empty(),
        styles: Seq::empty(),
        link: None,
        links: Seq::empty(),
    }
}

/// The line being built becomes a finished line, even when it is empty.
pub open spec fn flushed(st: RenderState) -> RenderState {
    RenderState { lines: st.lines.push(st.current), current: Seq::empty(), ..st }
}

/// The line being built becomes a finished line, if it holds anything.
pub open spec fn pending_flushed(st: RenderState) -> RenderState {
    if st.current.len() > 0 {
        flushed(st)
    } else {
        st
    }
}

pub open spec fn with_blank_line(st: RenderState) -> RenderState {
    RenderState { lines: st.lines.push(Seq::empty()), ..st }
}

pub open spec fn with_span(st: RenderState, content: Seq<char>, style: SpanStyle) -> RenderState {
    RenderState { current: st.current.push(SpanView { content, style }), ..st }
}

pub open spec fn with_style(st: RenderState, style: SpanStyle) -> RenderState {
    RenderState { styles: st.styles.push(style), ..st }
}

pub open spec fn without_style(st: RenderState) -> RenderState {
    if st.styles.len() > 0 {
        RenderState { styles: st.styles.drop_last(), ..st }
    } else {
        st
    }
}

/// A text run: it carries the union of the active styles, and inside a link it
/// also yields one link record placed at the current line and column.
pub open spec fn with_text(st: RenderState, text: Seq<char>) -> RenderState {
    let column = line_width(st.current);
    let found = match st.link {
        Some(url) => RenderState {
            links: st.links.push(
                LinkView {
                    text,
                    url,
                    line: st.lines.len(),
                    start_column: column,
                    end_column: column + text.len(),
                },
            ),
            ..st
        },
        None => st,
    };
    with_span(found, text, combined_style(st.styles))
}

pub open spec fn render_start(st: RenderState, tag: MdTag) -> RenderState {
    match tag {
        MdTag::Heading => {
            let s = with_style(st, bold_style());
            if s.current.len() > 0 || s.lines.len() > 0 {
                with_blank_line(pending_flushed(s))
            } else {
                s
            }
        },
        MdTag::Paragraph => pending_flushed(st),
        MdTag::List => pending_flushed(st),
        MdTag::Item => with_span(st, bullet(), plain_style()),
        MdTag::Emphasis => with_style(st, italic_style()),
        MdTag::Strong => with_style(st, bold_style()),
        MdTag::Strikethrough => with_style(st, crossed_out_style()),
        MdTag::Link(url) => RenderState { link: Some(url@), ..with_style(st, underline_style()) },
        MdTag::Other => st,
    }
}

pub open spec fn render_end(st: RenderState, tag: MdTag) -> RenderState {
    match tag {
        MdTag::Heading => without_style(with_blank_line(flushed(st))),
        MdTag::Paragraph => with_blank_line(pending_flushed(st)),
        MdTag::List => pending_flushed(st),
        MdTag::Item => flushed(st),
        MdTag::Emphasis => without_style(st),
        MdTag::Strong => without_style(st),
        MdTag::Strikethrough => without_style(st),
        MdTag::Link(_) => RenderState { link: None, ..without_style(st) },
        MdTag::Other => st,
    }
}

/// How one token changes the renderer's state.
pub open spec fn render_step(st: RenderState, e: MdEvent) -> RenderState {
    match e {
        MdEvent::Start(tag) => render_start(st, tag),
        MdEvent::End(tag) => render_end(st, tag),
        MdEvent::Text(s) => with_text(st, s@),
        MdEvent::Code(s) => with_span(st, s@, bold_style()),
        MdEvent::SoftBreak => with_span(st, seq![' '], plain_style()),
        MdEvent::HardBreak => pending_flushed(st),
        MdEvent::Other => st,
    }
}

/// The renderer's state after a token stream, taken from the first token on.
pub open spec fn render_all(events: Seq<MdEvent>) -> RenderState
    decreases events.len(),
{
    if events.len() == 0 {
        initial_render_state()
    } else {
        render_step(render_all(events.drop_last()), events.last())
    }
}

/// The lines of a token stream; a pending line at the end is kept.
pub open spec fn rendered_lines(events: Seq<MdEvent>) -> Seq<Seq<SpanView>> {
    pending_flushed(render_all(events)).lines
}

/// The links of a token stream, in the order their text runs occur.
pub open spec fn rendered_links(events: Seq<MdEvent>) -> Seq<LinkView> {
    render_all(events).links
}

/// How far a token can move the column: the characters it adds to a line.
pub open spec fn event_width(e: MdEvent) -> nat {
    match e {
        MdEvent::Start(MdTag::Item) => 2,
        MdEvent::Text(s) => s@.len(),
        MdEvent::Code(s) => s@.len(),
        MdEvent::SoftBreak => 1,
        _ => 0,
    }
}

pub open spec fn events_width(events: Seq<MdEvent>) -> nat
    decreases events.len(),
{
    if events.len() == 0 {
        0
    } else {
        events_width(events.drop_last()) + event_width(events.last())
    }
}

proof fn lemma_events_width_prefix(events: Seq<MdEvent>, n: int)
    requires
        0 <= n <= events.len(),
    ensures
        events_width(events.take(n)) <= events_width(events),
    decreases events.len(),
{
    if n < events.len() {
        lemma_events_width_prefix(events.drop_last(), n);
        assert(events.drop_last().take(n) =~= events.take(n));
    } else {
        assert(events.take(n) =~= events);
    }
}

struct Renderer {
    lines: Vec<StyledLine>,
    current: Vec<StyledSpan>,
    styles: Vec<SpanStyle>,
    link_url: Option<String>,
    links: Vec<Link>,
    column: usize,
}

impl Renderer {
    spec fn state(&self) -> RenderState {
        RenderState {
            lines: lines_view(self.lines@),
            current: spans_view(self.current@),
            styles: self.styles@,
            link: match self.link_url {
                Some(u) => Some(u@),
                None => None,
            },
            links: links_view(self.links@),
        }
    }

    spec fn wf(&self) -> bool {
        self.column == line_width(spans_view(self.current@))
    }

    fn new() -> (r: Renderer)
        ensures
            r.wf(),
            r.state() == initial_render_state(),
            r.column == 0,
    {
        let r = Renderer {
            lines: Vec::new(),
            current: Vec::new(),
            styles: Vec::new(),
            link_url: None,
            links: Vec::new(),
            column: 0,
        };
        assert(r.state().lines =~= Seq::empty());
        assert(r.state().current =~= Seq::empty());
        assert(r.state().links =~= Seq::empty());
        r
    }

    fn flush(&mut self)
        requires
            old(self).wf(),
        ensures
            final(self).wf(),
            final(self).state() == flushed(old(self).state()),
            final(self).column == 0,
    {
        let mut spans: Vec<StyledSpan> = Vec::new();
        std::mem::swap(&mut spans, &mut self.current);
        let ghost old_lines = self.lines@;
        self.lines.push(StyledLine { spans });
        self.column = 0;
        assert(lines_view(self.lines@) =~= lines_view(old_lines).push(spans_view(spans@)));
        assert(spans_view(self.current@) =~= Seq::empty());
        assert(self.state() =~= flushed(old(self).state()));
    }

    fn flush_pending(&mut self)
        requires
            old(self).wf(),
        ensures
            final(self).wf(),
            final(self).state() == pending_flushed(old(self).state()),
            final(self).column <= old(self).column,
    {
        if self.current.len() > 0 {
            self.flush();
        }
    }

    fn push_blank(&mut self)
        requires
            old(self).wf(),
        ensures
            final(self).wf(),
            final(self).state() == with_blank_line(old(self).state()),
            final(self).column == old(self).column,
    {
        let ghost old_lines = self.lines@;
        self.lines.push(StyledLine { spans: Vec::new() });
        assert(spans_view(Seq::<StyledSpan>::empty()) =~= Seq::empty());
        assert(lines_view(self.lines@) =~= lines_view(old_lines).push(Seq::empty()));
        assert(self.state() =~= with_blank_line(old(self).state()));
    }

    fn push_span(&mut self, content: String, style: SpanStyle)
        requires
            old(self).wf(),
            old(self).column + content@.len() <= usize::MAX,
        ensures
            final(self).wf(),
            final(self).state() == with_span(old(self).state(), content@, style),
            final(self).column == old(self).column + content@.len(),
    {
        let n = content.as_str().unicode_len();
        let ghost old_current = self.current@;
        let ghost text = content@;
        self.current.push(StyledSpan { content, style });
        self.column = self.column + n;
        let ghost v = spans_view(self.current@);
        assert(v =~= spans_view(old_current).push(SpanView { content: text, style }));
        assert(v.drop_last() =~= spans_view(old_current));
        assert(self.state() =~= with_span(old(self).state(), text, style));
    }

    fn push_style(&mut self, style: SpanStyle)
        requires
            old(self).wf(),
        ensures
            final(self).wf(),
            final(self).state() == with_style(old(self).state(), style),
            final(self).column == old(self).column,
    {
        self.styles.push(style);
        assert(self.state() =~= with_style(old(self).state(), style));
    }

    fn pop_style(&mut self)
        requires
            old(self).wf(),
        ensures
            final(self).wf(),
            final(self).state() == without_style(old(self).state()),
            final(self).column == old(self).column,
    {
        if self.styles.len() > 0 {
            self.styles.pop();
            assert(self.state() =~= without_style(old(self).state()));
        }
    }

    fn current_style(&self) -> (r: SpanStyle)
        ensures
            r == combined_style(self.styles@),
    {
        let mut style = SpanStyle::plain();
        let mut j: usize = 0;
        while j < self.styles.len()
            invariant
                j <= self.styles.len(),
                style == combined_style(self.styles@.take(j as int)),
            decreases self.styles.len() - j,
        {
            assert(self.styles@.take(j + 1).drop_last() =~= self.styles@.take(j as int));
            style = style.union(self.styles[j]);
            j = j + 1;
        }
        assert(self.styles@.take(j as int) =~= self.styles@);
        style
    }

    fn text(&mut self, s: &String)
        requires
            old(self).wf(),
            old(self).column + s@.len() <= usize::MAX,
        ensures
            final(self).wf(),
            final(self).state() == with_text(old(self).state(), s@),
            final(self).column == old(self).column + s@.len(),
    {
        let style = self.current_style();
        let ghost old_links = self.links@;
        if let Some(url) = &self.link_url {
            let n = s.as_str().unicode_len();
            let link = Link {
                text: s.clone(),
                url: url.clone(),
                line: self.lines.len(),
                start_column: self.column,
                end_column: self.column + n,
            };
            self.links.push(link);
            assert(links_view(self.links@) =~= links_view(old_links).push(link@));
        }
        self.push_span(s.clone(), style);
    }

    fn start(&mut self, tag: &MdTag)
        requires
            old(self).wf(),
            old(self).column + event_width(MdEvent::Start(*tag)) <= usize::MAX,
        ensures
            final(self).wf(),
            final(self).state() == render_start(old(self).state(), *tag),
            final(self).column <= old(self).column + event_width(MdEvent::Start(*tag)),
    {
        match tag {
            MdTag::Heading => {
                self.push_style(SpanStyle { bold: true, ..SpanStyle::plain() });
                if self.current.len() > 0 || self.lines.len() > 0 {
                    self.flush_pending();
                    self.push_blank();
                }
            },
            MdTag::Paragraph => self.flush_pending(),
            MdTag::List => self.flush_pending(),
            MdTag::Item => {
                let glyph = String::from_str("\u{2022} ");
                proof {
                    reveal_strlit("\u{2022} ");
                }
                assert(glyph@ =~= bullet());
                self.push_span(glyph, SpanStyle::plain());
            },
            MdTag::Emphasis => self.push_style(SpanStyle { italic: true, ..SpanStyle::plain() }),
            MdTag::Strong => self.push_style(SpanStyle { bold: true, ..SpanStyle::plain() }),
            MdTag::Strikethrough => {
                self.push_style(SpanStyle { crossed_out: true, ..SpanStyle::plain() })
            },
            MdTag::Link(url) => {
                self.push_style(SpanStyle { underline: true, ..SpanStyle::plain() });
                self.link_url = Some(url.clone());
            },
            MdTag::Other => {},
        }
    }

    fn end(&mut self, tag: &MdTag)
        requires
            old(self).wf(),
        ensures
            final(self).wf(),
            final(self).state() == render_end(old(self).state(), *tag),
            final(self).column <= old(self).column,
    {
        match tag {
            MdTag::Heading => {
                self.flush();
                self.push_blank();
                self.pop_style();
            },
            MdTag::Paragraph => {
                self.flush_pending();
                self.push_blank();
            },
            MdTag::List => self.flush_pending(),
            MdTag::Item => self.flush(),
            MdTag::Emphasis | MdTag::Strong | MdTag::Strikethrough => self.pop_style(),
            MdTag::Link(_) => {
                self.pop_style();
                self.link_url = None;
            },
            MdTag::Other => {},
        }
    }

    fn step(&mut self, e: &MdEvent)
        requires
            old(self).wf(),
            old(self).column + event_width(*e) <= usize::MAX,
        ensures
            final(self).wf(),
            final(self).state() == render_step(old(self).state(), *e),
            final(self).column <= old(self).column + event_width(*e),
    {
        match e {
            MdEvent::Start(tag) => self.start(tag),
            MdEvent::End(tag) => self.end(tag),
            MdEvent::Text(s) => self.text(s),
            MdEvent::Code(s) => self.push_span(s.clone(), SpanStyle { bold: true, ..SpanStyle::plain() }),
            MdEvent::SoftBreak => {
                let space = String::from_str(" ");
                proof {
                    reveal_strlit(" ");
                }
                assert(space@ =~= seq![' ']);
                self.push_span(space, SpanStyle::plain());
            },
            MdEvent::HardBreak => self.flush_pending(),
            MdEvent::Other => {},
        }
    }
}

/// Renders a token stream into styled lines and link records.
///
/// Headings are bold and have a blank line before (unless nothing precedes
/// them) and after; a paragraph ends with a blank line; each list item is one
/// line opened by a bullet; emphasis, strong emphasis, strikethrough and links
/// add their attribute for as long as they are open; inline code is bold; a
/// soft break is a space and a hard break ends the line. Every text run inside
/// a link yields a link record with the run's line and column range.
pub fn render_events(events: &Vec<MdEvent>) -> (r: (Vec<StyledLine>, Vec<Link>))
    requires
        events_width(events@) <= usize::MAX,
    ensures
        lines_view(r.0@) == rendered_lines(events@),
        links_view(r.1@) == rendered_links(events@),
{
    let mut r = Renderer::new();
    let mut i: usize = 0;
    while i < events.len()
        invariant
            i <= events.len(),
            r.wf(),
            r.state() == render_all(events@.take(i as int)),
            r.column <= events_width(events@.take(i as int)),
            events_width(events@) <= usize::MAX,
        decreases events.len() - i,
    {
        let ghost next = events@.take(i + 1);
        assert(next.drop_last() =~= events@.take(i as int));
        assert(next.last() == events@[i as int]);
        proof {
            lemma_events_width_prefix(events@, i + 1);
        }
        r.step(&events[i]);
        i = i + 1;
    }
    assert(events@.take(i as int) =~= events@);
    r.flush_pending();
    (r.lines, r.links)
}

/// The width of a token stream, if it fits in a `usize`.
fn checked_events_width(events: &Vec<MdEvent>) -> (r: Option<usize>)
    ensures
        r is Some <==> events_width(events@) <= usize::MAX,
        r matches Some(w) ==> w == events_width(events@),
{
    let mut total: usize = 0;
    let mut i: usize = 0;
    while i < events.len()
        invariant
            i <= events.len(),
            total == events_width(events@.take(i as int)),
        decreases events.len() - i,
    {
        let ghost next = events@.take(i + 1);
        assert(next.drop_last() =~= events@.take(i as int));
        let w: usize = match &events[i] {
            MdEvent::Start(MdTag::Item) => 2,
            MdEvent::Text(s) => s.as_str().unicode_len(),
            MdEvent::Code(s) => s.as_str().unicode_len(),
            MdEvent::SoftBreak => 1,
            _ => 0,
        };
        if total > usize::MAX - w {
            proof {
                lemma_events_width_prefix(events@, i + 1);
            }
            return None;
        }
        total = total + w;
        i = i + 1;
    }
    assert(events@.take(i as int) =~= events@);
    Some(total)
}

/// The lines that a markdown document renders to. Should the text of the
/// document not fit a column count in a `usize`, there are none.
pub open spec fn markdown_lines(content: Seq<char>) -> Seq<Seq<SpanView>> {
    let events = markdown_events_of(content);
    if events_width(events) <= usize::MAX {
        rendered_lines(events)
    } else {
        Seq::empty()
    }
}

/// The links that a markdown document yields, under the same condition.
pub open spec fn markdown_links(content: Seq<char>) -> Seq<LinkView> {
    let events = markdown_events_of(content);
    if events_width(events) <= usize::MAX {
        rendered_links(events)
    } else {
        Seq::empty()
    }
}

/// Renders a markdown document into styled lines and the hyperlinks found in
/// it. The result depends on the document alone, so rendering the same
/// document twice gives the same lines and links.
pub fn parse_markdown(content: &str) -> (r: (Vec<StyledLine>, Vec<Link>))
    ensures
        lines_view(r.0@) == markdown_lines(content@),
        links_view(r.1@) == markdown_links(content@),
{
    let events = markdown_events(content);
    match checked_events_width(&events) {
        Some(_) => render_events(&events),
        None => {
            let lines: Vec<StyledLine> = Vec::new();
            let links: Vec<Link> = Vec::new();
            assert(lines_view(lines@) =~= Seq::empty());
            assert(links_view(links@) =~= Seq::empty());
            (lines, links)
        },
    }
}

/// Rendering is idempotent: any two results that rendering the same document
/// can give have the same lines and the same links.
pub proof fn lemma_render_twice(
    content: &str,
    first: &(Vec<StyledLine>, Vec<Link>),
    second: &(Vec<StyledLine>, Vec<Link>),
)
    requires
        lines_view(first.0@) == markdown_lines(content@),
        links_view(first.1@) == markdown_links(content@),
        lines_view(second.0@) == markdown_lines(content@),
        links_view(second.1@) == markdown_links(content@),
    ensures
        lines_view(first.0@) == lines_view(second.0@),
        links_view(first.1@) == links_view(second.1@),
{
}

} // verus!
