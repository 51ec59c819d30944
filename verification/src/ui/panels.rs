//! The content of the dashboard's panels: which text goes on which line, in
//! which style.  Laying the panels out on the terminal is left to the
//! drawing code, which turns these spans into widgets.

use vstd::prelude::*;
use crate::app::{App, Focus};
use crate::api::traits::LogEntry;
use crate::state::app_state::{errors_view, statuses_view, ErrorEntry, ErrorEntryView, SourceStatus, SourceStatusView};
use crate::models::pipeline::PipelineStatus;
use crate::ui::dashboard::{log_line_style, log_line_style_spec};
use crate::instant::is_instant;
use crate::models::pipeline::{first_line, pipeline_status_symbol, pipeline_status_text, short_sha, Pipeline};
use crate::models::stage::{stage_status_symbol, Stage};
use crate::state::app_state::derefs;
use crate::text::{
    byte_cut, char_boundary, cut_at, decimal, lemma_byte_cut, push_decimal, push_str, utf8_len,
    utf8_longer_than,
};
use crate::ui::dashboard::{badge_spec, list_scroll_offset, platform_badge};
use crate::ui::theme::{stage_color_spec, status_color_spec};
use crate::utils::time::{
    duration_compact_text, format_duration_compact, format_relative_at, relative_text, whole_seconds,
};
use crate::ui::dashboard::{source_icon, source_icon_spec, source_style_spec, source_type_color};
use crate::ui::theme::{fg_style, StyleSpec, Theme};

verus! {

/// A piece of text drawn in one style.
#[derive(Debug, Clone)]
pub struct Span {
    pub text: String,
    pub style: StyleSpec,
}

pub struct SpanView {
    pub text: Seq<char>,
    pub style: StyleSpec,
}

impl View for Span {
    type V = SpanView;

    open spec fn view(&self) -> SpanView {
        SpanView { text: self.text@, style: self.style }
    }
}

/// The views of a line of spans.
pub open spec fn spans_view(l: Seq<Span>) -> Seq<SpanView> {
    l.map_values(|s: Span| s@)
}

/// The views of several lines of spans.
pub open spec fn lines_view(l: Seq<Vec<Span>>) -> Seq<Seq<SpanView>> {
    l.map_values(|v: Vec<Span>| spans_view(v@))
}

/// A span's view.
pub open spec fn sv(text: Seq<char>, style: StyleSpec) -> SpanView {
    SpanView { text, style }
}

/// The style of text drawn without any style of its own.
pub open spec fn plain() -> StyleSpec {
    StyleSpec { fg: None, bg: None, bold: false, dim: false }
}

/// `s` with the dim modifier added.
pub open spec fn dimmed(s: StyleSpec) -> StyleSpec {
    StyleSpec { dim: true, ..s }
}

/// The theme's style for normal text.
pub open spec fn normal_style(t: Theme) -> StyleSpec {
    StyleSpec { fg: Some(t.foreground), bg: Some(t.background), bold: false, dim: false }
}

/// The theme's style for highlighted text.
pub open spec fn highlight_style(t: Theme) -> StyleSpec {
    fg_style(t.highlight, true)
}

fn styled(text: String, style: StyleSpec) -> (s: Span)
    ensures
        s@ == sv(text@, style),
{
    Span { text, style }
}

fn raw(text: &str) -> (s: Span)
    ensures
        s@ == sv(text@, plain()),
{
    Span { text: text.to_owned(), style: StyleSpec { fg: None, bg: None, bold: false, dim: false } }
}

fn lit(text: &str, style: StyleSpec) -> (s: Span)
    ensures
        s@ == sv(text@, style),
{
    Span { text: text.to_owned(), style }
}

// ---------------------------------------------------------------------------
// Header
// ---------------------------------------------------------------------------

/// The theme's style for titles.
pub open spec fn title_style(t: Theme) -> StyleSpec {
    StyleSpec { fg: Some(t.title), bg: Some(t.background), bold: true, dim: false }
}

/// The title line of the header.
pub open spec fn header_line_spec(t: Theme) -> Seq<SpanView> {
    seq![sv("ARGUS"@, title_style(t)), sv(" ─ All-Seeing Pipeline Monitor"@, plain())]
}

/// The title line of the header.
pub fn header_line(theme: &Theme) -> (r: Vec<Span>)
    ensures
        spans_view(r@) == header_line_spec(*theme),
{
    let mut r: Vec<Span> = Vec::new();
    r.push(lit("ARGUS", theme.title()));
    r.push(raw(" ─ All-Seeing Pipeline Monitor"));
    assert(spans_view(r@) =~= header_line_spec(*theme));
    r
}

/// The text of a source's badge in the header.
pub open spec fn badge_text(name: Seq<char>, status: SourceStatusView) -> Seq<char> {
    "["@ + name + " "@ + source_icon_spec(status) + " ] "@
}

/// The badge of a source in the header.
pub open spec fn source_badge_spec(e: (Seq<char>, SourceStatusView)) -> SpanView {
    sv(badge_text(e.0, e.1), source_style_spec(e.0, e.1))
}

/// The source line of the header: a label, then one badge per source in
/// the order of the status table.
pub open spec fn header_badges_spec(s: Seq<(Seq<char>, SourceStatusView)>) -> Seq<SpanView> {
    seq![sv("Sources: "@, plain())] + s.map_values(|e: (Seq<char>, SourceStatusView)| source_badge_spec(e))
}

/// The source line of the header.
pub fn header_badges(app: &App) -> (r: Vec<Span>)
    ensures
        spans_view(r@) == header_badges_spec(statuses_view(app.state.source_status@)),
{
    let mut r: Vec<Span> = Vec::new();
    r.push(raw("Sources: "));
    let n = app.state.source_status.len();
    let ghost st = statuses_view(app.state.source_status@);
    let mut i: usize = 0;
    while i < n
        invariant
            n == app.state.source_status@.len(),
            st == statuses_view(app.state.source_status@),
            i <= n,
            spans_view(r@) == seq![sv("Sources: "@, plain())] + st.take(i as int).map_values(
                |e: (Seq<char>, SourceStatusView)| source_badge_spec(e),
            ),
        decreases n - i,
    {
        let e = &app.state.source_status[i];
        let mut t = "[".to_owned();
        push_str(&mut t, e.0.as_str());
        push_str(&mut t, " ");
        push_str(&mut t, source_icon(&e.1));
        push_str(&mut t, " ] ");
        let style = source_type_color(e.0.as_str(), &e.1);
        let ghost before = spans_view(r@);
        r.push(styled(t, style));
        proof {
            assert(st[i as int] == (e.0@, e.1@));
            assert(st.take(i + 1) =~= st.take(i as int).push(st[i as int]));
            assert(spans_view(r@) =~= before.push(source_badge_spec(st[i as int])));
            assert(st.take(i + 1).map_values(|e: (Seq<char>, SourceStatusView)| source_badge_spec(e))
                =~= st.take(i as int).map_values(|e: (Seq<char>, SourceStatusView)| source_badge_spec(e)).push(
                source_badge_spec(st[i as int]),
            ));
        }
        i = i + 1;
    }
    assert(st.take(n as int) =~= st);
    r
}

/// The title of the header's border: the number of pipelines and the
/// refresh interval.
pub open spec fn header_title_spec(count: nat, refresh: nat) -> Seq<char> {
    " "@ + decimal(count) + " pipelines | "@ + decimal(refresh) + "s refresh "@
}

/// The title of the header's border.
pub fn header_title(app: &App) -> (r: String)
    ensures
        r@ == header_title_spec(app.state.stored().len(), app.refresh_interval as nat),
{
    let mut r = " ".to_owned();
    push_decimal(&mut r, app.state.pipeline_count() as u64);
    push_str(&mut r, " pipelines | ");
    push_decimal(&mut r, app.refresh_interval);
    push_str(&mut r, "s refresh ");
    r
}

// ---------------------------------------------------------------------------
// Pipeline list
// ---------------------------------------------------------------------------

/// The text shown in place of an empty pipeline list.
pub open spec fn list_empty_spec(no_sources: bool) -> Seq<char> {
    if no_sources {
        "No sources configured.\n\nAdd [[sources]] to ~/.config/argus/config.toml"@
    } else {
        "Fetching pipelines…\n\nNo data yet. Press 'r' to force refresh."@
    }
}

/// The text shown in place of an empty pipeline list.
pub fn list_empty_text(no_sources: bool) -> (r: &'static str)
    ensures
        r@ == list_empty_spec(no_sources),
{
    if no_sources {
        "No sources configured.\n\nAdd [[sources]] to ~/.config/argus/config.toml"
    } else {
        "Fetching pipelines…\n\nNo data yet. Press 'r' to force refresh."
    }
}

/// The most bytes of a name the list shows whole.
pub const NAME_BYTES: usize = 20;

/// Whether a name can be shortened for the list: it fits, or a character
/// ends at byte `NAME_BYTES - 1`.
pub open spec fn name_cut_ok(name: Seq<char>) -> bool {
    utf8_len(name) > NAME_BYTES ==> cut_at(name, (NAME_BYTES - 1) as nat)
}

/// A name as the list shows it: whole when it takes at most `NAME_BYTES`
/// bytes, otherwise its first `NAME_BYTES - 1` bytes and an ellipsis.
pub open spec fn shown_name(name: Seq<char>) -> Seq<char> {
    if utf8_len(name) > NAME_BYTES {
        name.take(byte_cut(name, (NAME_BYTES - 1) as nat)) + "…"@
    } else {
        name
    }
}

fn short_name(name: &str) -> (r: String)
    requires
        name_cut_ok(name@),
    ensures
        r@ == shown_name(name@),
{
    if !utf8_longer_than(name, NAME_BYTES) {
        return name.to_owned();
    }
    match char_boundary(name, NAME_BYTES - 1) {
        Some(k) => {
            proof {
                lemma_byte_cut(name@, (NAME_BYTES - 1) as nat, k as int);
            }
            let mut r = name.substring_char(0, k).to_owned();
            push_str(&mut r, "…");
            assert(name@.subrange(0, k as int) =~= name@.take(k as int));
            r
        },
        None => {
            proof {
                let c = choose|c: int| 0 <= c <= name@.len() && #[trigger] utf8_len(name@.take(c)) == (NAME_BYTES - 1) as nat;
                assert(utf8_len(name@.take(c)) == (NAME_BYTES - 1) as nat);
            }
            name.to_owned()
        },
    }
}

/// The theme's style for the selected entry.
pub open spec fn selected_style(t: Theme) -> StyleSpec {
    StyleSpec { fg: Some(t.foreground), bg: Some(t.selected), bold: true, dim: false }
}

/// The text of an optional duration after a pipeline's branch.
pub open spec fn list_duration_text(d: Option<i64>) -> Seq<char> {
    match d {
        Some(ms) => " "@ + duration_compact_text(whole_seconds(ms as int)),
        None => ""@,
    }
}

/// A row of the pipeline list: platform badge, status symbol, name,
/// branch and duration.
pub open spec fn list_row_spec(t: Theme, p: Pipeline, selected: bool) -> Seq<SpanView> {
    let base = if selected {
        selected_style(t)
    } else {
        normal_style(t)
    };
    let badge = badge_spec(p.source@);
    seq![
        sv("["@ + badge.0 + "] "@, fg_style(badge.1, true)),
        sv(pipeline_status_symbol(p.status) + " "@, fg_style(status_color_spec(t, p.status), true)),
        sv(shown_name(p.name@), base),
        sv(" ("@ + p.branch@ + ")"@, dimmed(base)),
        sv(list_duration_text(p.duration), dimmed(base)),
    ]
}

/// The first row shown of a list of `visible` rows so that row `selected`
/// is in view.
pub open spec fn scroll_offset_spec(selected: int, visible: int) -> int {
    if selected >= visible {
        selected - visible + 1
    } else {
        0
    }
}

/// The number of rows shown from `offset` on, at most `visible`.
pub open spec fn shown_count(len: int, offset: int, visible: int) -> int {
    if offset >= len {
        0
    } else if len - offset < visible {
        len - offset
    } else {
        visible
    }
}

/// The rows shown of the sorted pipelines, `selected` being the selected
/// row and `visible` the number of rows with room.
pub open spec fn list_rows_spec(t: Theme, s: Seq<Pipeline>, selected: int, visible: int) -> Seq<Seq<SpanView>> {
    let off = scroll_offset_spec(selected, visible);
    Seq::new(
        shown_count(s.len() as int, off, visible) as nat,
        |j: int| list_row_spec(t, s[off + j], off + j == selected),
    )
}

fn list_row(theme: &Theme, p: &Pipeline, selected: bool) -> (r: Vec<Span>)
    requires
        name_cut_ok(p.name@),
    ensures
        spans_view(r@) == list_row_spec(*theme, *p, selected),
{
    let base = if selected {
        theme.selected()
    } else {
        theme.normal()
    };
    let dim = StyleSpec { dim: true, ..base };
    let (label, color) = platform_badge(p.source.as_str());
    let mut r: Vec<Span> = Vec::new();
    let mut b = "[".to_owned();
    push_str(&mut b, label);
    push_str(&mut b, "] ");
    r.push(styled(b, StyleSpec { fg: Some(color), bg: None, bold: true, dim: false }));
    let mut e = p.status.emoji().to_owned();
    push_str(&mut e, " ");
    r.push(styled(e, theme.status_style(p.status)));
    r.push(styled(short_name(p.name.as_str()), base));
    let mut br = " (".to_owned();
    push_str(&mut br, p.branch.as_str());
    push_str(&mut br, ")");
    r.push(styled(br, dim));
    let d = match p.duration {
        Some(ms) => {
            let mut t = " ".to_owned();
            push_str(&mut t, format_duration_compact(ms).as_str());
            t
        },
        None => "".to_owned(),
    };
    r.push(styled(d, dim));
    assert(spans_view(r@) =~= list_row_spec(*theme, *p, selected));
    r
}

/// The rows shown of the sorted pipelines.
pub fn pipeline_rows(theme: &Theme, sorted: &Vec<&Pipeline>, selected: usize, visible: usize) -> (r: Vec<Vec<Span>>)
    requires
        visible > 0 || selected < usize::MAX,
        forall|i: int| 0 <= i < sorted@.len() ==> name_cut_ok(#[trigger] sorted@[i].name@),
    ensures
        lines_view(r@) == list_rows_spec(*theme, derefs(sorted@), selected as int, visible as int),
{
    let off = list_scroll_offset(selected, visible);
    let len = sorted.len();
    let count = if off >= len {
        0
    } else if len - off < visible {
        len - off
    } else {
        visible
    };
    let ghost want = list_rows_spec(*theme, derefs(sorted@), selected as int, visible as int);
    let mut r: Vec<Vec<Span>> = Vec::new();
    let mut j: usize = 0;
    while j < count
        invariant
            j <= count,
            count == shown_count(len as int, off as int, visible as int),
            off == scroll_offset_spec(selected as int, visible as int),
            len == sorted@.len(),
            count == 0 || off + count <= len,
            want == list_rows_spec(*theme, derefs(sorted@), selected as int, visible as int),
            forall|i: int| 0 <= i < sorted@.len() ==> name_cut_ok(#[trigger] sorted@[i].name@),
            lines_view(r@) == want.take(j as int),
        decreases count - j,
    {
        let p = sorted[off + j];
        let row = list_row(theme, p, off + j == selected);
        let ghost before = lines_view(r@);
        r.push(row);
        assert(lines_view(r@) =~= before.push(spans_view(row@)));
        assert(derefs(sorted@)[off + j] == *p);
        assert(want.take(j + 1) =~= want.take(j as int).push(want[j as int]));
        j = j + 1;
    }
    assert(want.take(count as int) =~= want);
    r
}

/// The counter shown on the list's border when not every row fits:
/// the selected row's number and the total.
pub open spec fn list_counter_spec(total: nat, visible: nat, selected: nat) -> Seq<char> {
    if total > visible {
        " "@ + decimal(selected + 1) + "/"@ + decimal(total) + " "@
    } else {
        ""@
    }
}

/// The counter shown on the list's border.
pub fn list_counter(total: usize, visible: usize, selected: usize) -> (r: String)
    requires
        total > visible ==> selected < usize::MAX,
    ensures
        r@ == list_counter_spec(total as nat, visible as nat, selected as nat),
{
    if total > visible {
        let mut r = " ".to_owned();
        push_decimal(&mut r, (selected + 1) as u64);
        push_str(&mut r, "/");
        push_decimal(&mut r, total as u64);
        push_str(&mut r, " ");
        r
    } else {
        "".to_owned()
    }
}

// ---------------------------------------------------------------------------
// Details panel
// ---------------------------------------------------------------------------

/// The text shown in the details panel when no pipeline is selected.
pub fn details_empty_text() -> (r: &'static str)
    ensures
        r@ == "No pipelines available"@,
{
    "No pipelines available"
}

/// A labelled line of the details panel.
pub open spec fn field_line(t: Theme, label: Seq<char>, value: SpanView) -> Seq<SpanView> {
    seq![sv(label, highlight_style(t)), value]
}

/// The lines about the pipeline itself, `now` being the current time.
pub open spec fn detail_head_spec(t: Theme, p: Pipeline, now: i64) -> Seq<Seq<SpanView>> {
    let badge = badge_spec(p.source@);
    seq![
        field_line(t, "Platform:  "@, sv("["@ + badge.0 + "] "@ + p.source@, fg_style(badge.1, true))),
        field_line(t, "Pipeline:  "@, sv(p.name@, plain())),
        field_line(t, "Repository:"@, sv(" "@ + p.repository@, plain())),
        field_line(
            t,
            "Status:    "@,
            sv(
                pipeline_status_symbol(p.status) + " "@ + pipeline_status_text(p.status),
                fg_style(status_color_spec(t, p.status), true),
            ),
        ),
        field_line(t, "Branch:    "@, sv(p.branch@, plain())),
        field_line(t, "Build:     "@, sv("#"@ + decimal(p.build_number as nat), plain())),
        field_line(
            t,
            "Commit:    "@,
            sv(short_sha(p.commit_sha@) + " – "@ + first_line(p.commit_message@), plain()),
        ),
        field_line(t, "Author:    "@, sv(p.author@, plain())),
        field_line(t, "Started:   "@, sv(relative_text(now - p.started_at), plain())),
    ]
}

/// The duration line, where the pipeline has a duration.
pub open spec fn detail_duration_spec(t: Theme, p: Pipeline) -> Seq<Seq<SpanView>> {
    match p.duration {
        Some(d) => seq![field_line(t, "Duration:  "@, sv(duration_compact_text(whole_seconds(d as int)), plain()))],
        None => seq![],
    }
}

/// The heading of the stage list.
pub open spec fn stage_heading_spec(t: Theme) -> Seq<Seq<SpanView>> {
    seq![
        seq![sv(""@, plain())],
        seq![sv("Stages:  (↑↓ to select, 'l' for logs)"@, highlight_style(t))],
        seq![sv(""@, plain())],
    ]
}

/// The line of a stage: a marker where it is selected, its status symbol,
/// its name and its duration.
pub open spec fn stage_line_spec(t: Theme, s: Stage, selected: bool) -> Seq<SpanView> {
    let st = if selected {
        selected_style(t)
    } else {
        normal_style(t)
    };
    seq![
        sv(if selected { " ▶ "@ } else { "   "@ }, st),
        sv(stage_status_symbol(s.status) + " "@, fg_style(stage_color_spec(t, s.status), true)),
        sv(s.name@, st),
        sv(
            match s.duration {
                Some(d) => " ("@ + duration_compact_text(whole_seconds(d as int)) + ")"@,
                None => ""@,
            },
            dimmed(st),
        ),
    ]
}

/// The lines of the details panel for pipeline `p`, stage `stage` being
/// the selected one, marked when the panel has the focus.
pub open spec fn details_spec(t: Theme, p: Pipeline, stage: int, focused: bool, now: i64) -> Seq<Seq<SpanView>> {
    detail_head_spec(t, p, now) + detail_duration_spec(t, p) + stage_heading_spec(t) + Seq::new(
        p.stages@.len(),
        |i: int| stage_line_spec(t, p.stages@[i], i == stage && focused),
    )
}

fn field(theme: &Theme, label: &str, value: Span) -> (r: Vec<Span>)
    ensures
        spans_view(r@) == field_line(*theme, label@, value@),
{
    let mut r: Vec<Span> = Vec::new();
    r.push(lit(label, theme.highlight()));
    r.push(value);
    assert(spans_view(r@) =~= field_line(*theme, label@, value@));
    r
}

fn stage_line(theme: &Theme, s: &Stage, selected: bool) -> (r: Vec<Span>)
    ensures
        spans_view(r@) == stage_line_spec(*theme, *s, selected),
{
    let st = if selected {
        theme.selected()
    } else {
        theme.normal()
    };
    let mut r: Vec<Span> = Vec::new();
    r.push(lit(if selected { " ▶ " } else { "   " }, st));
    let mut e = s.status.emoji().to_owned();
    push_str(&mut e, " ");
    r.push(styled(e, theme.stage_status_style(s.status)));
    r.push(styled(s.name.clone(), st));
    let d = match s.duration {
        Some(ms) => {
            let mut t = " (".to_owned();
            push_str(&mut t, format_duration_compact(ms).as_str());
            push_str(&mut t, ")");
            t
        },
        None => "".to_owned(),
    };
    r.push(styled(d, StyleSpec { dim: true, ..st }));
    assert(spans_view(r@) =~= stage_line_spec(*theme, *s, selected));
    r
}

/// The lines of the details panel for pipeline `p`.
pub fn pipeline_details(theme: &Theme, p: &Pipeline, stage: usize, focused: bool, now: i64) -> (r: Vec<Vec<Span>>)
    requires
        is_instant(p.started_at),
        is_instant(now),
    ensures
        lines_view(r@) == details_spec(*theme, *p, stage as int, focused, now),
{
    let mut r: Vec<Vec<Span>> = Vec::new();
    let (label, color) = platform_badge(p.source.as_str());
    let mut b = "[".to_owned();
    push_str(&mut b, label);
    push_str(&mut b, "] ");
    push_str(&mut b, p.source.as_str());
    r.push(field(theme, "Platform:  ", styled(b, StyleSpec { fg: Some(color), bg: None, bold: true, dim: false })));
    r.push(field(theme, "Pipeline:  ", styled(p.name.clone(), StyleSpec { fg: None, bg: None, bold: false, dim: false })));
    let mut repo = " ".to_owned();
    push_str(&mut repo, p.repository.as_str());
    r.push(field(theme, "Repository:", styled(repo, StyleSpec { fg: None, bg: None, bold: false, dim: false })));
    let mut st = p.status.emoji().to_owned();
    push_str(&mut st, " ");
    push_str(&mut st, p.status.as_str());
    r.push(field(theme, "Status:    ", styled(st, theme.status_style(p.status))));
    r.push(field(theme, "Branch:    ", styled(p.branch.clone(), StyleSpec { fg: None, bg: None, bold: false, dim: false })));
    let mut build = "#".to_owned();
    push_decimal(&mut build, p.build_number as u64);
    r.push(field(theme, "Build:     ", styled(build, StyleSpec { fg: None, bg: None, bold: false, dim: false })));
    let mut commit = p.short_commit_sha();
    push_str(&mut commit, " – ");
    push_str(&mut commit, p.short_commit_message().as_str());
    r.push(field(theme, "Commit:    ", styled(commit, StyleSpec { fg: None, bg: None, bold: false, dim: false })));
    r.push(field(theme, "Author:    ", styled(p.author.clone(), StyleSpec { fg: None, bg: None, bold: false, dim: false })));
    r.push(field(theme, "Started:   ", styled(format_relative_at(p.started_at, now), StyleSpec { fg: None, bg: None, bold: false, dim: false })));
    let ghost head = lines_view(r@);
    assert(head =~= detail_head_spec(*theme, *p, now));
    match p.duration {
        Some(d) => {
            r.push(field(theme, "Duration:  ", styled(format_duration_compact(d), StyleSpec { fg: None, bg: None, bold: false, dim: false })));
        },
        None => {},
    }
    let ghost with_dur = lines_view(r@);
    assert(with_dur =~= head + detail_duration_spec(*theme, *p));
    let mut blank: Vec<Span> = Vec::new();
    blank.push(raw(""));
    assert(spans_view(blank@) =~= seq![sv(""@, plain())]);
    let ghost l0 = lines_view(r@);
    r.push(blank);
    assert(lines_view(r@) =~= l0.push(seq![sv(""@, plain())]));
    let mut heading: Vec<Span> = Vec::new();
    heading.push(lit("Stages:  (↑↓ to select, 'l' for logs)", theme.highlight()));
    assert(spans_view(heading@) =~= seq![sv("Stages:  (↑↓ to select, 'l' for logs)"@, highlight_style(*theme))]);
    let ghost l1 = lines_view(r@);
    r.push(heading);
    assert(lines_view(r@) =~= l1.push(seq![sv("Stages:  (↑↓ to select, 'l' for logs)"@, highlight_style(*theme))]));
    let mut blank2: Vec<Span> = Vec::new();
    blank2.push(raw(""));
    assert(spans_view(blank2@) =~= seq![sv(""@, plain())]);
    let ghost l2 = lines_view(r@);
    r.push(blank2);
    assert(lines_view(r@) =~= l2.push(seq![sv(""@, plain())]));
    let ghost top = lines_view(r@);
    assert(top =~= with_dur + stage_heading_spec(*theme));
    let ghost stages = Seq::new(
        p.stages@.len(),
        |i: int| stage_line_spec(*theme, p.stages@[i], i == stage && focused),
    );
    let n = p.stages.len();
    let mut i: usize = 0;
    while i < n
        invariant
            i <= n,
            n == p.stages@.len(),
            top.len() <= r@.len(),
            stages == Seq::new(
                p.stages@.len(),
                |i: int| stage_line_spec(*theme, p.stages@[i], i == stage && focused),
            ),
            lines_view(r@) == top + stages.take(i as int),
        decreases n - i,
    {
        let line = stage_line(theme, &p.stages[i], i == stage && focused);
        let ghost before = lines_view(r@);
        r.push(line);
        assert(lines_view(r@) =~= before.push(spans_view(line@)));
        assert(stages.take(i + 1) =~= stages.take(i as int).push(stages[i as int]));
        i = i + 1;
    }
    assert(stages.take(n as int) =~= stages);
    r
}

/// The lines of the details panel for the selected pipeline, or `None`
/// when no pipeline is selected.  The selected stage is the stage chosen
/// for logs, the first one when none is.
pub fn details_view(app: &App, theme: &Theme, now: i64) -> (r: Option<Vec<Vec<Span>>>)
    requires
        app.state.wf(),
        is_instant(now),
        app.selected_pipeline < app.sorted().len() ==> is_instant(
            app.sorted()[app.selected_pipeline as int].started_at,
        ),
    ensures
        match r {
            Some(l) => app.selected_pipeline < app.sorted().len() && lines_view(l@) == details_spec(
                *theme,
                app.sorted()[app.selected_pipeline as int],
                match app.log_stage_index {
                    Some(i) => i as int,
                    None => 0,
                },
                app.focus == Focus::Details,
                now,
            ),
            None => app.selected_pipeline >= app.sorted().len(),
        },
{
    match app.selected_pipeline_ref() {
        Some(p) => {
            let stage = match app.log_stage_index {
                Some(i) => i,
                None => 0,
            };
            Some(pipeline_details(theme, p, stage, app.focus == Focus::Details, now))
        },
        None => None,
    }
}

// ---------------------------------------------------------------------------
// Log viewer
// ---------------------------------------------------------------------------

/// The title of the log viewer.
pub fn log_title() -> (r: &'static str)
    ensures
        r@ == " Logs  (↑↓ PgUp PgDn Home End | Esc to close) "@,
{
    " Logs  (↑↓ PgUp PgDn Home End | Esc to close) "
}

/// The text the log viewer shows in place of log lines: while logs are
/// being fetched, or when there are none.
pub open spec fn log_placeholder_spec(logs: Option<Seq<LogEntry>>) -> Option<Seq<char>> {
    match logs {
        None => Some("  Fetching logs…"@),
        Some(l) => if l.len() == 0 {
            Some("  No log output available for this stage."@)
        } else {
            None
        },
    }
}

/// The text the log viewer shows in place of log lines, if any.
pub fn log_placeholder(logs: &Option<Vec<LogEntry>>) -> (r: Option<&'static str>)
    ensures
        match r {
            Some(t) => log_placeholder_spec(
                match logs {
                    Some(l) => Some(l@),
                    None => None,
                },
            ) == Some(t@),
            None => log_placeholder_spec(
                match logs {
                    Some(l) => Some(l@),
                    None => None,
                },
            ) is None,
        },
{
    match logs {
        None => Some("  Fetching logs…"),
        Some(l) => if l.len() == 0 {
            Some("  No log output available for this stage.")
        } else {
            None
        },
    }
}

/// `s` right-aligned in a field of `w` characters.
pub open spec fn pad_left(s: Seq<char>, w: nat) -> Seq<char> {
    if s.len() >= w {
        s
    } else {
        Seq::new((w - s.len()) as nat, |i: int| ' ') + s
    }
}

/// The width of the line-number column of the log viewer.
pub const LINE_NUMBER_WIDTH: usize = 5;

/// A line of the log viewer: the line number, right-aligned, and the text
/// in the style its words call for.
pub open spec fn log_line_spec(t: Theme, e: LogEntry) -> Seq<SpanView> {
    seq![
        sv(pad_left(decimal(e.line as nat), LINE_NUMBER_WIDTH as nat) + " "@, dimmed(normal_style(t))),
        sv(e.text@, log_line_style_spec(t, e.text@)),
    ]
}

/// The lines of the log viewer from line `scroll` on, at most `visible`.
pub open spec fn log_lines_spec(t: Theme, entries: Seq<LogEntry>, scroll: int, visible: int) -> Seq<Seq<SpanView>> {
    Seq::new(
        shown_count(entries.len() as int, scroll, visible) as nat,
        |j: int| log_line_spec(t, entries[scroll + j]),
    )
}

fn padded_number(n: usize) -> (r: String)
    ensures
        r@ == pad_left(decimal(n as nat), LINE_NUMBER_WIDTH as nat) + " "@,
{
    let mut digits = String::new();
    push_decimal(&mut digits, n as u64);
    let len = digits.as_str().unicode_len();
    let mut r = String::new();
    let mut k: usize = len;
    while k < LINE_NUMBER_WIDTH
        invariant
            len <= k <= LINE_NUMBER_WIDTH || (len >= LINE_NUMBER_WIDTH && k == len),
            r@ == Seq::new((k - len) as nat, |i: int| ' '),
        decreases LINE_NUMBER_WIDTH - k,
    {
        crate::text::push_char(&mut r, ' ');
        assert(r@ =~= Seq::new((k + 1 - len) as nat, |i: int| ' '));
        k = k + 1;
    }
    push_str(&mut r, digits.as_str());
    push_str(&mut r, " ");
    proof {
        if len >= LINE_NUMBER_WIDTH {
            assert(r@ =~= digits@ + " "@);
        } else {
            assert(r@ =~= Seq::new((LINE_NUMBER_WIDTH - len) as nat, |i: int| ' ') + digits@ + " "@);
        }
    }
    r
}

/// The lines of the log viewer from line `scroll` on, at most `visible`.
pub fn log_lines(theme: &Theme, entries: &Vec<LogEntry>, scroll: usize, visible: usize) -> (r: Vec<Vec<Span>>)
    ensures
        lines_view(r@) == log_lines_spec(*theme, entries@, scroll as int, visible as int),
{
    let len = entries.len();
    let count = if scroll >= len {
        0
    } else if len - scroll < visible {
        len - scroll
    } else {
        visible
    };
    let ghost want = log_lines_spec(*theme, entries@, scroll as int, visible as int);
    let mut r: Vec<Vec<Span>> = Vec::new();
    let mut j: usize = 0;
    while j < count
        invariant
            j <= count,
            count == shown_count(len as int, scroll as int, visible as int),
            len == entries@.len(),
            count == 0 || scroll + count <= len,
            want == log_lines_spec(*theme, entries@, scroll as int, visible as int),
            lines_view(r@) == want.take(j as int),
        decreases count - j,
    {
        let e = &entries[scroll + j];
        let mut line: Vec<Span> = Vec::new();
        line.push(styled(padded_number(e.line), StyleSpec { dim: true, ..theme.normal() }));
        line.push(styled(e.text.clone(), log_line_style(theme, e.text.as_str())));
        assert(spans_view(line@) =~= log_line_spec(*theme, *e));
        let ghost before = lines_view(r@);
        r.push(line);
        assert(lines_view(r@) =~= before.push(spans_view(line@)));
        assert(want.take(j + 1) =~= want.take(j as int).push(want[j as int]));
        j = j + 1;
    }
    assert(want.take(count as int) =~= want);
    r
}

/// The position shown on the log viewer's border: the first line shown and
/// the number of lines.
pub open spec fn log_counter_spec(scroll: nat, total: nat) -> Seq<char> {
    " "@ + decimal(scroll + 1) + "/"@ + decimal(total) + " "@
}

/// The position shown on the log viewer's border.
pub fn log_counter(scroll: usize, total: usize) -> (r: String)
    requires
        scroll < usize::MAX,
    ensures
        r@ == log_counter_spec(scroll as nat, total as nat),
{
    let mut r = " ".to_owned();
    push_decimal(&mut r, (scroll + 1) as u64);
    push_str(&mut r, "/");
    push_decimal(&mut r, total as u64);
    push_str(&mut r, " ");
    r
}

// ---------------------------------------------------------------------------
// Error panel
// ---------------------------------------------------------------------------

/// The text of the error panel when there is no error.
pub fn no_errors_text() -> (r: &'static str)
    ensures
        r@ == "  No recent errors."@,
{
    "  No recent errors."
}

/// A line of the error panel: when, from which source, and what.
pub open spec fn error_line_spec(t: Theme, e: ErrorEntryView, now: i64) -> Seq<SpanView> {
    seq![
        sv(" "@ + relative_text(now - e.timestamp) + " "@, dimmed(normal_style(t))),
        sv("["@ + e.source + "] "@, fg_style(status_color_spec(t, PipelineStatus::Running), true)),
        sv(e.message, fg_style(status_color_spec(t, PipelineStatus::Failed), true)),
    ]
}

/// The lines of the error panel: the most recent errors first, at most
/// `visible` of them.
pub open spec fn error_lines_spec(t: Theme, errors: Seq<ErrorEntryView>, visible: int, now: i64) -> Seq<Seq<SpanView>> {
    Seq::new(
        shown_count(errors.len() as int, 0, visible) as nat,
        |j: int| error_line_spec(t, errors[errors.len() - 1 - j], now),
    )
}

/// The lines of the error panel.
pub fn error_lines(theme: &Theme, errors: &std::collections::VecDeque<ErrorEntry>, visible: usize, now: i64) -> (r: Vec<Vec<Span>>)
    requires
        is_instant(now),
        forall|i: int| 0 <= i < errors@.len() ==> is_instant(#[trigger] errors@[i].timestamp),
    ensures
        lines_view(r@) == error_lines_spec(*theme, errors_view(errors@), visible as int, now),
{
    let len = errors.len();
    let count = if len < visible {
        len
    } else {
        visible
    };
    let ghost ev = errors_view(errors@);
    let ghost want = error_lines_spec(*theme, ev, visible as int, now);
    let mut r: Vec<Vec<Span>> = Vec::new();
    let mut j: usize = 0;
    while j < count
        invariant
            j <= count <= len,
            count == shown_count(len as int, 0, visible as int),
            len == errors@.len(),
            ev == errors_view(errors@),
            is_instant(now),
            forall|i: int| 0 <= i < errors@.len() ==> is_instant(#[trigger] errors@[i].timestamp),
            want == error_lines_spec(*theme, ev, visible as int, now),
            lines_view(r@) == want.take(j as int),
        decreases count - j,
    {
        let e = &errors[len - 1 - j];
        assert(ev[len - 1 - j] == e@);
        let mut line: Vec<Span> = Vec::new();
        let mut when = " ".to_owned();
        push_str(&mut when, format_relative_at(e.timestamp, now).as_str());
        push_str(&mut when, " ");
        line.push(styled(when, StyleSpec { dim: true, ..theme.normal() }));
        let mut src = "[".to_owned();
        push_str(&mut src, e.source.as_str());
        push_str(&mut src, "] ");
        line.push(styled(src, theme.status_style(PipelineStatus::Running)));
        line.push(styled(e.message.clone(), theme.status_style(PipelineStatus::Failed)));
        assert(spans_view(line@) =~= error_line_spec(*theme, e@, now));
        let ghost before = lines_view(r@);
        r.push(line);
        assert(lines_view(r@) =~= before.push(spans_view(line@)));
        assert(want.take(j + 1) =~= want.take(j as int).push(want[j as int]));
        j = j + 1;
    }
    assert(want.take(count as int) =~= want);
    r
}

// ---------------------------------------------------------------------------
// Footer
// ---------------------------------------------------------------------------

/// The footer line: the status message where there is one, otherwise the
/// key help for the focused panel.
pub open spec fn footer_spec(t: Theme, focus: Focus, message: Option<Seq<char>>) -> Seq<SpanView> {
    let h = highlight_style(t);
    match message {
        Some(m) => seq![sv(" "@, plain()), sv(m, h)],
        None => match focus {
            Focus::PipelineList => seq![
                sv(" "@, plain()),
                sv("↑↓"@, h),
                sv(" Navigate | "@, plain()),
                sv("Enter"@, h),
                sv(" Details | "@, plain()),
                sv("r"@, h),
                sv(" Refresh | "@, plain()),
                sv("e"@, h),
                sv(" Errors | "@, plain()),
                sv("q"@, h),
                sv(" Quit"@, plain()),
            ],
            Focus::Details => seq![
                sv(" "@, plain()),
                sv("↑↓"@, h),
                sv(" Stages | "@, plain()),
                sv("l"@, h),
                sv(" Logs | "@, plain()),
                sv("←"@, h),
                sv(" Back | "@, plain()),
                sv("e"@, h),
                sv(" Errors | "@, plain()),
                sv("q"@, h),
                sv(" Quit"@, plain()),
            ],
            Focus::Logs => seq![
                sv(" "@, plain()),
                sv("↑↓ PgUp PgDn"@, h),
                sv(" Scroll | "@, plain()),
                sv("Home End"@, h),
                sv(" Jump | "@, plain()),
                sv("Esc"@, h),
                sv(" Close"@, plain()),
            ],
            Focus::Errors => seq![sv(" "@, plain()), sv("e"@, h), sv(" Close errors panel"@, plain())],
        },
    }
}

/// The footer line of the application.
pub fn footer_line(app: &App, theme: &Theme) -> (r: Vec<Span>)
    ensures
        spans_view(r@) == footer_spec(
            *theme,
            app.focus,
            match app.status_message {
                Some(m) => Some(m.0@),
                None => None,
            },
        ),
{
    let h = theme.highlight();
    let mut r: Vec<Span> = Vec::new();
    match &app.status_message {
        Some((msg, _)) => {
            r.push(raw(" "));
            r.push(styled(msg.clone(), h));
        },
        None => match app.focus {
            Focus::PipelineList => {
                r.push(raw(" "));
                r.push(lit("↑↓", h));
                r.push(raw(" Navigate | "));
                r.push(lit("Enter", h));
                r.push(raw(" Details | "));
                r.push(lit("r", h));
                r.push(raw(" Refresh | "));
                r.push(lit("e", h));
                r.push(raw(" Errors | "));
                r.push(lit("q", h));
                r.push(raw(" Quit"));
            },
            Focus::Details => {
                r.push(raw(" "));
                r.push(lit("↑↓", h));
                r.push(raw(" Stages | "));
                r.push(lit("l", h));
                r.push(raw(" Logs | "));
                r.push(lit("←", h));
                r.push(raw(" Back | "));
                r.push(lit("e", h));
                r.push(raw(" Errors | "));
                r.push(lit("q", h));
                r.push(raw(" Quit"));
            },
            Focus::Logs => {
                r.push(raw(" "));
                r.push(lit("↑↓ PgUp PgDn", h));
                r.push(raw(" Scroll | "));
                r.push(lit("Home End", h));
                r.push(raw(" Jump | "));
                r.push(lit("Esc", h));
                r.push(raw(" Close"));
            },
            Focus::Errors => {
                r.push(raw(" "));
                r.push(lit("e", h));
                r.push(raw(" Close errors panel"));
            },
        },
    }
    assert(spans_view(r@) =~= footer_spec(
        *theme,
        app.focus,
        match app.status_message {
            Some(m) => Some(m.0@),
            None => None,
        },
    ));
    r
}

} // verus!
