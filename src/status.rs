use millisecond::prelude::{Millisecond, MillisecondFormatter, MillisecondOption, SecondsOptions};
use vstd::prelude::*;
use vstd::string::*;

use crate::config::{color_or, icon_or, slot_color, slot_icon, ClaudeStatusLineConfig, Field};
use crate::text::{
    contains, decimal, digit_char, lemma_contains_after, lemma_contains_before, paint, painted,
    push_decimal, push_signed_decimal, signed_decimal,
};

verus! {

/// Palette index of the context bar while the window is comfortably free.
pub const BRIGHT_GREEN: u8 = 46;
/// Palette index of the context bar once it passes the warning threshold.
pub const BRIGHT_YELLOW: u8 = 226;
/// Default palette index of the duration.
pub const DODGER_BLUE: u8 = 39;
/// Default palette index of the cost.
pub const LAVENDER: u8 = 141;
/// Default palette index of the token counts.
pub const MAGENTA_PINK: u8 = 213;
/// Default palette index of the model name.
pub const ORANGE: u8 = 208;
/// Palette index of the context bar once it passes the alert threshold.
pub const PINK_RED: u8 = 203;

/// Default icon of the context bar.
pub const CONTEXT_ICON: &'static str = "🧠";
/// Default icon of the cost.
pub const COST_ICON: &'static str = "💰";
/// Default icon of the duration.
pub const DURATION_ICON: &'static str = "⏱️";
/// Default icon of the model name.
pub const MODEL_ICON: &'static str = "🤖";
/// Default icon of the token counts.
pub const TOKENS_ICON: &'static str = "🪙";

/// Number of cells in the context bar.
pub const CONTEXT_BAR_WIDTH: usize = 10;
/// Above this percentage the bar turns to the alert colour; the host starts
/// compacting the context a little beyond it.
pub const CONTEXT_THRESHOLD_HIGH: i32 = 80;
/// Above this percentage the bar turns to the warning colour.
pub const CONTEXT_THRESHOLD_MEDIUM: i32 = 70;

/// The amount spent in the session, in hundredths of a US dollar.
#[derive(Clone, Copy, Debug, PartialEq, Eq, Structural)]
pub struct Amount {
    pub total_cost_cents: Option<u64>,
}

/// The time spent waiting on the API, in milliseconds.
#[derive(Clone, Copy, Debug, PartialEq, Eq, Structural)]
pub struct Duration {
    pub total_api_duration_ms: Option<u64>,
}

/// The model in use.
#[derive(Clone, Debug)]
pub struct Model {
    pub display_name: String,
}

/// How much of the context window is used, in whole percent (rounded down).
#[derive(Clone, Copy, Debug, PartialEq, Eq, Structural)]
pub struct Percentage {
    pub used_percentage: Option<i32>,
}

/// The tokens sent to and received from the model.
#[derive(Clone, Copy, Debug, PartialEq, Eq, Structural)]
pub struct Tokens {
    pub total_input_tokens: Option<u64>,
    pub total_output_tokens: Option<u64>,
}

/// The `cost` section of the input.
#[derive(Clone, Copy, Debug, PartialEq, Eq, Structural)]
pub struct Cost {
    pub amount: Amount,
    pub duration: Duration,
}

/// The `context_window` section of the input.
#[derive(Clone, Copy, Debug, PartialEq, Eq, Structural)]
pub struct ContextWindow {
    pub percentage: Percentage,
    pub tokens: Tokens,
}

/// The input as it arrives: every section but the model may be missing.
#[derive(Clone, Debug)]
pub struct RawClaudeStatusLineData {
    pub cost: Option<Cost>,
    pub context_window: Option<ContextWindow>,
    pub model: Model,
}

/// The five fields of the status line, with every section present.
#[derive(Clone, Debug)]
pub struct ClaudeStatusLineData {
    pub cost: Amount,
    pub duration: Duration,
    pub model: Model,
    pub percentage: Percentage,
    pub tokens: Tokens,
}

impl Default for Amount {
    fn default() -> (r: Self)
        ensures
            r.total_cost_cents is None,
    {
        Amount { total_cost_cents: None }
    }
}

impl Default for Duration {
    fn default() -> (r: Self)
        ensures
            r.total_api_duration_ms is None,
    {
        Duration { total_api_duration_ms: None }
    }
}

impl Default for Percentage {
    fn default() -> (r: Self)
        ensures
            r.used_percentage is None,
    {
        Percentage { used_percentage: None }
    }
}

impl Default for Tokens {
    fn default() -> (r: Self)
        ensures
            r.total_input_tokens is None,
            r.total_output_tokens is None,
    {
        Tokens { total_input_tokens: None, total_output_tokens: None }
    }
}

impl Default for Cost {
    fn default() -> (r: Self)
        ensures
            r.amount.total_cost_cents is None,
            r.duration.total_api_duration_ms is None,
    {
        Cost { amount: Amount::default(), duration: Duration::default() }
    }
}

impl Default for ContextWindow {
    fn default() -> (r: Self)
        ensures
            r.percentage.used_percentage is None,
            r.tokens.total_input_tokens is None,
            r.tokens.total_output_tokens is None,
    {
        ContextWindow { percentage: Percentage::default(), tokens: Tokens::default() }
    }
}

/// The normalized record of a raw input: a missing section counts as a
/// section whose values are all missing.
pub open spec fn normalized(raw: RawClaudeStatusLineData) -> ClaudeStatusLineData {
    ClaudeStatusLineData {
        cost: match raw.cost {
            Some(c) => c.amount,
            None => Amount { total_cost_cents: None },
        },
        duration: match raw.cost {
            Some(c) => c.duration,
            None => Duration { total_api_duration_ms: None },
        },
        model: raw.model,
        percentage: match raw.context_window {
            Some(w) => w.percentage,
            None => Percentage { used_percentage: None },
        },
        tokens: match raw.context_window {
            Some(w) => w.tokens,
            None => Tokens { total_input_tokens: None, total_output_tokens: None },
        },
    }
}

impl From<RawClaudeStatusLineData> for ClaudeStatusLineData {
    fn from(raw: RawClaudeStatusLineData) -> (r: Self) {
        let context = match raw.context_window {
            Some(w) => w,
            None => ContextWindow::default(),
        };
        let cost = match raw.cost {
            Some(c) => c,
            None => Cost::default(),
        };
        ClaudeStatusLineData {
            cost: cost.amount,
            duration: cost.duration,
            model: raw.model,
            percentage: context.percentage,
            tokens: context.tokens,
        }
    }
}

impl vstd::std_specs::convert::FromSpecImpl<RawClaudeStatusLineData> for ClaudeStatusLineData {
    open spec fn obeys_from_spec() -> bool {
        true
    }

    open spec fn from_spec(raw: RawClaudeStatusLineData) -> ClaudeStatusLineData {
        normalized(raw)
    }
}

/// The whole percent that a missing value stands for: zero.
pub open spec fn percent_of(p: Percentage) -> int {
    match p.used_percentage {
        Some(v) => v as int,
        None => 0,
    }
}

/// The number of filled cells of the bar: a tenth of the percentage, rounded
/// down, kept between none and all of them.
pub open spec fn filled_cells(percent: int) -> int {
    if percent <= 0 {
        0
    } else if percent >= 100 {
        10
    } else {
        percent / 10
    }
}

pub open spec fn cells(n: int, c: char) -> Seq<char> {
    Seq::new(n as nat, |_i: int| c)
}

/// The context bar: filled cells, then empty ones, ten in all.
pub open spec fn bar_of(percent: int) -> Seq<char> {
    cells(filled_cells(percent), '▓') + cells(10 - filled_cells(percent), '░')
}

/// The palette index of the bar: alert above the high threshold, warning
/// above the medium one, normal otherwise.
pub open spec fn color_of_percent(percent: int) -> u8 {
    if percent > 80 {
        PINK_RED
    } else if percent > 70 {
        BRIGHT_YELLOW
    } else {
        BRIGHT_GREEN
    }
}

/// The text of the percentage field: the bar, a space, the percentage and '%'.
pub open spec fn percentage_text(percent: int) -> Seq<char> {
    bar_of(percent) + " "@ + signed_decimal(percent) + "%"@
}

fn push_cells(s: &mut String, n: usize, cell: &str)
    requires
        cell@.len() == 1,
    ensures
        final(s)@ == old(s)@ + cells(n as int, cell@[0]),
{
    let mut i: usize = 0;
    while i < n
        invariant
            i <= n,
            cell@.len() == 1,
            s@ == old(s)@ + cells(i as int, cell@[0]),
        decreases n - i,
    {
        s.append(cell);
        i = i + 1;
        assert(s@ =~= old(s)@ + cells(i as int, cell@[0]));
    }
}

impl Percentage {
    /// The number of filled cells of the context bar.
    pub fn filled(&self) -> (r: usize)
        ensures
            r as int == filled_cells(percent_of(*self)),
            r <= CONTEXT_BAR_WIDTH,
    {
        let percent: i32 = match self.used_percentage {
            Some(v) => v,
            None => 0,
        };
        if percent <= 0 {
            0
        } else if percent >= 100 {
            CONTEXT_BAR_WIDTH
        } else {
            (percent / 10) as usize
        }
    }

    /// The context bar alone.
    pub fn bar(&self) -> (r: String)
        ensures
            r@ == bar_of(percent_of(*self)),
            r@.len() == CONTEXT_BAR_WIDTH,
    {
        proof {
            reveal_strlit("▓");
            reveal_strlit("░");
        }
        let filled = self.filled();
        let mut s = String::new();
        push_cells(&mut s, filled, "▓");
        push_cells(&mut s, CONTEXT_BAR_WIDTH - filled, "░");
        assert(s@ =~= bar_of(percent_of(*self)));
        s
    }

    /// The palette index of the bar, chosen by the percentage alone.
    pub fn color(&self) -> (r: u8)
        ensures
            r == color_of_percent(percent_of(*self)),
    {
        let percent: i32 = match self.used_percentage {
            Some(v) => v,
            None => 0,
        };
        if percent > CONTEXT_THRESHOLD_HIGH {
            PINK_RED
        } else if percent > CONTEXT_THRESHOLD_MEDIUM {
            BRIGHT_YELLOW
        } else {
            BRIGHT_GREEN
        }
    }

    /// The bar followed by the percentage, unpainted.
    pub fn text(&self) -> (r: String)
        ensures
            r@ == percentage_text(percent_of(*self)),
    {
        let percent: i32 = match self.used_percentage {
            Some(v) => v,
            None => 0,
        };
        let mut s = self.bar();
        s.append(" ");
        push_signed_decimal(&mut s, percent);
        s.append("%");
        s
    }
}

/// A rendered field: its icon, a space, and its text painted in its colour.
pub open spec fn field_of(icon: Seq<char>, color: u8, text: Seq<char>) -> Seq<char> {
    icon + " "@ + painted(color, text)
}

/// A field as its settings render it, with the given default colour and icon.
pub open spec fn configured_field(
    config: ClaudeStatusLineConfig,
    field: Field,
    default_color: u8,
    default_icon: Seq<char>,
    text: Seq<char>,
) -> Seq<char> {
    field_of(
        icon_or(config.component(field), default_icon),
        color_or(config.component(field), default_color),
        text,
    )
}

/// Renders one field from its icon, colour and text.
pub fn render_field(icon: &str, color: u8, text: &str) -> (r: String)
    ensures
        r@ == field_of(icon@, color, text@),
{
    let mut s = String::from_str(icon);
    s.append(" ");
    let painted_text = paint(color, text);
    s.append(painted_text.as_str());
    assert(s@ =~= field_of(icon@, color, text@));
    s
}

/// The two digits of a number below one hundred.
pub open spec fn two_digits(n: nat) -> Seq<char> {
    seq![digit_char(n / 10), digit_char(n % 10)]
}

/// A sum of cents as dollars with two decimals: "$12.05".
pub open spec fn cost_text(cents: nat) -> Seq<char> {
    "$"@ + decimal(cents / 100) + "."@ + two_digits(cents % 100)
}

pub open spec fn cents_of(a: Amount) -> nat {
    match a.total_cost_cents {
        Some(c) => c as nat,
        None => 0,
    }
}

impl Amount {
    /// The amount in dollars with two decimals, unpainted.
    pub fn text(&self) -> (r: String)
        ensures
            r@ == cost_text(cents_of(*self)),
    {
        proof {
            reveal_strlit("$");
            reveal_strlit(".");
        }
        let cents: u64 = match self.total_cost_cents {
            Some(c) => c,
            None => 0,
        };
        let mut s = String::from_str("$");
        push_decimal(&mut s, cents / 100);
        s.append(".");
        let rest = cents % 100;
        push_decimal(&mut s, rest / 10);
        push_decimal(&mut s, rest % 10);
        assert(s@ =~= cost_text(cents_of(*self)));
        s
    }

    /// The cost field: its icon and its painted amount.
    pub fn render(&self, config: &ClaudeStatusLineConfig) -> (r: String)
        ensures
            r@ == configured_field(*config, Field::Cost, LAVENDER, COST_ICON@, cost_text(cents_of(*self))),
    {
        let color = slot_color(&config.cost, LAVENDER);
        let icon = slot_icon(&config.cost, COST_ICON);
        let text = self.text();
        render_field(icon, color, text.as_str())
    }
}

/// What the duration crate makes of a number of milliseconds, in its short
/// form, with seconds rounded to whole ones ("1m 2s").
pub uninterp spec fn pretty_duration(ms: u64) -> Seq<char>;

/// Relies on millisecond's `pretty_with` on a `Duration` of `ms` milliseconds,
/// with seconds combined at precision 0 and no fixed width; the text
/// depends on `ms` alone.
#[verifier::external_body]
fn pretty_ms(ms: u64) -> (r: String)
    ensures
        r@ == pretty_duration(ms),
{
    let ms = Millisecond::from(core::time::Duration::from_millis(ms));
    ms.pretty_with(MillisecondOption {
        seconds: SecondsOptions::CombineWith { precision: Some(0), fixed_width: false },
        ..Default::default()
    })
}

/// The text of the duration field: "0s" for none, else the pretty form.
pub open spec fn duration_text(d: Duration) -> Seq<char> {
    match d.total_api_duration_ms {
        Some(ms) => if ms == 0 { "0s"@ } else { pretty_duration(ms) },
        None => "0s"@,
    }
}

impl Duration {
    /// The duration in words, unpainted.
    pub fn text(&self) -> (r: String)
        ensures
            r@ == duration_text(*self),
    {
        match self.total_api_duration_ms {
            Some(ms) => if ms == 0 { String::from_str("0s") } else { pretty_ms(ms) },
            None => String::from_str("0s"),
        }
    }

    /// The duration field: its icon and its painted duration.
    pub fn render(&self, config: &ClaudeStatusLineConfig) -> (r: String)
        ensures
            r@ == configured_field(*config, Field::Duration, DODGER_BLUE, DURATION_ICON@, duration_text(*self)),
    {
        let color = slot_color(&config.duration, DODGER_BLUE);
        let icon = slot_icon(&config.duration, DURATION_ICON);
        let text = self.text();
        render_field(icon, color, text.as_str())
    }
}

impl Model {
    /// The model field: its icon and the painted display name, unchanged.
    pub fn render(&self, config: &ClaudeStatusLineConfig) -> (r: String)
        ensures
            r@ == configured_field(*config, Field::Model, ORANGE, MODEL_ICON@, self.display_name@),
    {
        let color = slot_color(&config.model, ORANGE);
        let icon = slot_icon(&config.model, MODEL_ICON);
        render_field(icon, color, self.display_name.as_str())
    }
}

impl Percentage {
    /// The percentage field: its icon and the bar painted in the colour that
    /// the percentage selects (the settings give the icon only).
    pub fn render(&self, config: &ClaudeStatusLineConfig) -> (r: String)
        ensures
            r@ == field_of(
                icon_or(config.component(Field::Percentage), CONTEXT_ICON@),
                color_of_percent(percent_of(*self)),
                percentage_text(percent_of(*self)),
            ),
    {
        let icon = slot_icon(&config.percentage, CONTEXT_ICON);
        let text = self.text();
        render_field(icon, self.color(), text.as_str())
    }
}

/// The text of the token field: "{input}↑ {output}↓", a missing count as 0.
pub open spec fn tokens_text(t: Tokens) -> Seq<char> {
    let input: nat = match t.total_input_tokens {
        Some(n) => n as nat,
        None => 0,
    };
    let output: nat = match t.total_output_tokens {
        Some(n) => n as nat,
        None => 0,
    };
    decimal(input) + "↑ "@ + decimal(output) + "↓"@
}

impl Tokens {
    /// The token counts, unpainted.
    pub fn text(&self) -> (r: String)
        ensures
            r@ == tokens_text(*self),
    {
        let input: u64 = match self.total_input_tokens {
            Some(n) => n,
            None => 0,
        };
        let output: u64 = match self.total_output_tokens {
            Some(n) => n,
            None => 0,
        };
        let mut s = String::new();
        push_decimal(&mut s, input);
        s.append("↑ ");
        push_decimal(&mut s, output);
        s.append("↓");
        assert(s@ =~= tokens_text(*self));
        s
    }

    /// The token field: its icon and the painted counts.
    pub fn render(&self, config: &ClaudeStatusLineConfig) -> (r: String)
        ensures
            r@ == configured_field(*config, Field::Tokens, MAGENTA_PINK, TOKENS_ICON@, tokens_text(*self)),
    {
        let color = slot_color(&config.tokens, MAGENTA_PINK);
        let icon = slot_icon(&config.tokens, TOKENS_ICON);
        let text = self.text();
        render_field(icon, color, text.as_str())
    }
}

/// The separator between fields.
pub open spec fn separator() -> Seq<char> {
    " | "@
}

/// The status line: model, percentage, tokens, cost and duration, joined by " | ".
pub open spec fn line_of(d: ClaudeStatusLineData, config: ClaudeStatusLineConfig) -> Seq<char> {
    configured_field(config, Field::Model, ORANGE, MODEL_ICON@, d.model.display_name@)
        + separator()
        + field_of(
            icon_or(config.component(Field::Percentage), CONTEXT_ICON@),
            color_of_percent(percent_of(d.percentage)),
            percentage_text(percent_of(d.percentage)),
        )
        + separator()
        + configured_field(config, Field::Tokens, MAGENTA_PINK, TOKENS_ICON@, tokens_text(d.tokens))
        + separator()
        + configured_field(config, Field::Cost, LAVENDER, COST_ICON@, cost_text(cents_of(d.cost)))
        + separator()
        + configured_field(config, Field::Duration, DODGER_BLUE, DURATION_ICON@, duration_text(d.duration))
}

impl ClaudeStatusLineData {
    /// The status line for this record under `config`.
    pub fn render(&self, config: &ClaudeStatusLineConfig) -> (r: String)
        ensures
            r@ == line_of(*self, *config),
    {
        let mut s = self.model.render(config);
        s.append(" | ");
        s.append(self.percentage.render(config).as_str());
        s.append(" | ");
        s.append(self.tokens.render(config).as_str());
        s.append(" | ");
        s.append(self.cost.render(config).as_str());
        s.append(" | ");
        s.append(self.duration.render(config).as_str());
        s
    }
}

/// The context bar always has ten cells. For a percentage from 0 to 100 the
/// first tenth of it (rounded down) are filled and the rest empty: at 0 all
/// are empty, at 100 all are filled, and at 50 there are cells of both kinds.
pub proof fn bar_has_ten_cells(percent: int)
    ensures
        bar_of(percent).len() == CONTEXT_BAR_WIDTH,
        0 <= percent <= 100 ==> forall|i: int|
            0 <= i < 10 ==> #[trigger] bar_of(percent)[i] == if i < percent / 10 { '▓' } else { '░' },
        percent == 0 ==> forall|i: int| 0 <= i < 10 ==> #[trigger] bar_of(percent)[i] == '░',
        percent == 100 ==> forall|i: int| 0 <= i < 10 ==> #[trigger] bar_of(percent)[i] == '▓',
        percent == 50 ==> bar_of(percent).contains('▓') && bar_of(percent).contains('░'),
{
    if percent == 50 {
        assert(bar_of(percent)[0] == '▓');
        assert(bar_of(percent)[9] == '░');
    }
}

proof fn lemma_field_contains(icon: Seq<char>, color: u8, text: Seq<char>, t: Seq<char>)
    requires
        contains(text, t),
    ensures
        contains(field_of(icon, color, text), t),
{
    let e1 = seq!['\x1b', '[', '3', '8', ';', '5', ';'] + decimal(color as nat) + seq!['m'];
    let e2 = seq!['\x1b', '[', '0', 'm'];
    lemma_contains_after(e1, text, t);
    lemma_contains_before(e1 + text, e2, t);
    assert(painted(color, text) == e1 + text + e2);
    lemma_contains_after(icon + " "@, painted(color, text), t);
}

proof fn lemma_line_contains(
    a: Seq<char>,
    b: Seq<char>,
    c: Seq<char>,
    d: Seq<char>,
    e: Seq<char>,
    t: Seq<char>,
)
    requires
        contains(a, t) || contains(b, t) || contains(c, t) || contains(d, t) || contains(e, t),
    ensures
        contains(a + separator() + b + separator() + c + separator() + d + separator() + e, t),
{
    let sp = separator();
    let p1 = a + sp;
    let p2 = p1 + b;
    let p3 = p2 + sp;
    let p4 = p3 + c;
    let p5 = p4 + sp;
    let p6 = p5 + d;
    let p7 = p6 + sp;
    if contains(a, t) {
        lemma_contains_before(a, sp, t);
    }
    if contains(p1, t) {
        lemma_contains_before(p1, b, t);
    }
    if contains(b, t) {
        lemma_contains_after(p1, b, t);
    }
    assert(contains(a, t) || contains(b, t) ==> contains(p2, t));
    if contains(p2, t) {
        lemma_contains_before(p2, sp, t);
        lemma_contains_before(p3, c, t);
    }
    if contains(c, t) {
        lemma_contains_after(p3, c, t);
    }
    assert(contains(a, t) || contains(b, t) || contains(c, t) ==> contains(p4, t));
    if contains(p4, t) {
        lemma_contains_before(p4, sp, t);
        lemma_contains_before(p5, d, t);
    }
    if contains(d, t) {
        lemma_contains_after(p5, d, t);
    }
    assert(contains(p6, t) || contains(e, t));
    if contains(p6, t) {
        lemma_contains_before(p6, sp, t);
        lemma_contains_before(p7, e, t);
    }
    if contains(e, t) {
        lemma_contains_after(p7, e, t);
    }
}

/// Whatever the settings, an input without its cost and context-window
/// sections renders the defaults "0%", "0↑", "0↓", "$0.00" and "0s", and
/// the model's display name.
pub proof fn missing_sections_render_defaults(raw: RawClaudeStatusLineData, config: ClaudeStatusLineConfig)
    requires
        raw.cost is None,
        raw.context_window is None,
    ensures
        contains(line_of(normalized(raw), config), "0%"@),
        contains(line_of(normalized(raw), config), "0↑"@),
        contains(line_of(normalized(raw), config), "0↓"@),
        contains(line_of(normalized(raw), config), "$0.00"@),
        contains(line_of(normalized(raw), config), "0s"@),
        contains(line_of(normalized(raw), config), raw.model.display_name@),
{
    reveal_strlit("0%");
    reveal_strlit("0↑");
    reveal_strlit("0↓");
    reveal_strlit("$0.00");
    reveal_strlit("0s");
    reveal_strlit(" ");
    reveal_strlit("%");
    reveal_strlit("↑ ");
    reveal_strlit("↓");
    reveal_strlit("$");
    reveal_strlit(".");
    let d = normalized(raw);
    let m = raw.model.display_name@;
    let pct = percentage_text(0);
    let tok = tokens_text(d.tokens);
    let cost = cost_text(0);
    let dur = duration_text(d.duration);
    assert(m.subrange(0, (0 + m.len()) as int) =~= m);
    assert(pct.subrange(11, (11 + "0%"@.len()) as int) =~= "0%"@);
    assert(tok.subrange(0, (0 + "0↑"@.len()) as int) =~= "0↑"@);
    assert(tok.subrange(3, (3 + "0↓"@.len()) as int) =~= "0↓"@);
    assert(cost.subrange(0, (0 + "$0.00"@.len()) as int) =~= "$0.00"@);
    assert(dur.subrange(0, (0 + "0s"@.len()) as int) =~= "0s"@);
    let fm_icon = icon_or(config.component(Field::Model), MODEL_ICON@);
    let fm_color = color_or(config.component(Field::Model), ORANGE);
    let fp_icon = icon_or(config.component(Field::Percentage), CONTEXT_ICON@);
    let fp_color = color_of_percent(0);
    let ft_icon = icon_or(config.component(Field::Tokens), TOKENS_ICON@);
    let ft_color = color_or(config.component(Field::Tokens), MAGENTA_PINK);
    let fc_icon = icon_or(config.component(Field::Cost), COST_ICON@);
    let fc_color = color_or(config.component(Field::Cost), LAVENDER);
    let fd_icon = icon_or(config.component(Field::Duration), DURATION_ICON@);
    let fd_color = color_or(config.component(Field::Duration), DODGER_BLUE);
    let fm = field_of(fm_icon, fm_color, m);
    let fp = field_of(fp_icon, fp_color, pct);
    let ft = field_of(ft_icon, ft_color, tok);
    let fc = field_of(fc_icon, fc_color, cost);
    let fd = field_of(fd_icon, fd_color, dur);
    assert(line_of(d, config) == fm + separator() + fp + separator() + ft + separator() + fc + separator() + fd);
    lemma_field_contains(fm_icon, fm_color, m, m);
    lemma_line_contains(fm, fp, ft, fc, fd, m);
    lemma_field_contains(fp_icon, fp_color, pct, "0%"@);
    lemma_line_contains(fm, fp, ft, fc, fd, "0%"@);
    lemma_field_contains(ft_icon, ft_color, tok, "0↑"@);
    lemma_line_contains(fm, fp, ft, fc, fd, "0↑"@);
    lemma_field_contains(ft_icon, ft_color, tok, "0↓"@);
    lemma_line_contains(fm, fp, ft, fc, fd, "0↓"@);
    lemma_field_contains(fc_icon, fc_color, cost, "$0.00"@);
    lemma_line_contains(fm, fp, ft, fc, fd, "$0.00"@);
    lemma_field_contains(fd_icon, fd_color, dur, "0s"@);
    lemma_line_contains(fm, fp, ft, fc, fd, "0s"@);
}

} // verus!
