use vstd::prelude::*;
use vstd::string::*;

verus! {

/// The five parts of the status line that can be configured.
#[derive(Clone, Copy, Debug, PartialEq, Eq, Structural)]
pub enum Field {
    Cost,
    Duration,
    Model,
    Percentage,
    Tokens,
}

/// A colour and an icon for one field; either may be left unset.
#[derive(Clone, Debug)]
pub struct ClaudeStatusLineComponentConfig {
    pub color: Option<u8>,
    pub icon: Option<String>,
}

/// The per-field settings, each of which may be absent.
#[derive(Clone, Debug)]
pub struct ClaudeStatusLineConfig {
    pub cost: Option<ClaudeStatusLineComponentConfig>,
    pub duration: Option<ClaudeStatusLineComponentConfig>,
    pub model: Option<ClaudeStatusLineComponentConfig>,
    pub percentage: Option<ClaudeStatusLineComponentConfig>,
    pub tokens: Option<ClaudeStatusLineComponentConfig>,
}

/// The abstract content of a field's settings: its colour and its icon.
pub type ComponentView = (Option<u8>, Option<Seq<char>>);

impl View for ClaudeStatusLineComponentConfig {
    type V = ComponentView;

    open spec fn view(&self) -> ComponentView {
        (
            self.color,
            match self.icon {
                Some(s) => Some(s@),
                None => None,
            },
        )
    }
}

pub open spec fn slot_view(slot: Option<ClaudeStatusLineComponentConfig>) -> Option<ComponentView> {
    match slot {
        Some(c) => Some(c@),
        None => None,
    }
}

impl ClaudeStatusLineConfig {
    /// The settings of one field, as stored.
    pub open spec fn slot(&self, field: Field) -> Option<ClaudeStatusLineComponentConfig> {
        match field {
            Field::Cost => self.cost,
            Field::Duration => self.duration,
            Field::Model => self.model,
            Field::Percentage => self.percentage,
            Field::Tokens => self.tokens,
        }
    }

    pub open spec fn component(&self, field: Field) -> Option<ComponentView> {
        slot_view(self.slot(field))
    }
}

impl ClaudeStatusLineComponentConfig {
    /// The configured colour, or `default` where none is set.
    pub fn get_color_or(&self, default: u8) -> (r: u8)
        ensures
            r == match self.color {
                Some(c) => c,
                None => default,
            },
    {
        match self.color {
            Some(c) => c,
            None => default,
        }
    }

    /// The configured icon, or `default` where none is set.
    pub fn get_icon_or<'a>(&'a self, default: &'a str) -> (r: &'a str)
        ensures
            r@ == match self.icon {
                Some(s) => s@,
                None => default@,
            },
    {
        match &self.icon {
            Some(s) => s.as_str(),
            None => default,
        }
    }
}

impl Default for ClaudeStatusLineComponentConfig {
    fn default() -> (r: Self)
        ensures
            r.color is None,
            r.icon is None,
    {
        ClaudeStatusLineComponentConfig { color: None, icon: None }
    }
}

impl Default for ClaudeStatusLineConfig {
    fn default() -> (r: Self)
        ensures
            forall|f: Field| r.component(f) is None,
    {
        ClaudeStatusLineConfig { cost: None, duration: None, model: None, percentage: None, tokens: None }
    }
}

/// The colour for a field: its configured colour, else `default`.
pub open spec fn color_or(slot: Option<ComponentView>, default: u8) -> u8 {
    match slot {
        Some(c) => match c.0 {
            Some(v) => v,
            None => default,
        },
        None => default,
    }
}

/// The icon for a field: its configured icon, else `default`.
pub open spec fn icon_or(slot: Option<ComponentView>, default: Seq<char>) -> Seq<char> {
    match slot {
        Some(c) => match c.1 {
            Some(v) => v,
            None => default,
        },
        None => default,
    }
}

/// The colour that the settings of a field give, or `default`.
pub fn slot_color(slot: &Option<ClaudeStatusLineComponentConfig>, default: u8) -> (r: u8)
    ensures
        r == color_or(slot_view(*slot), default),
{
    match slot {
        Some(c) => c.get_color_or(default),
        None => default,
    }
}

/// The icon that the settings of a field give, or `default`.
pub fn slot_icon<'a>(slot: &'a Option<ClaudeStatusLineComponentConfig>, default: &'a str) -> (r: &'a str)
    ensures
        r@ == icon_or(slot_view(*slot), default@),
{
    match slot {
        Some(c) => c.get_icon_or(default),
        None => default,
    }
}

/// The upper-case name of a field, as it appears in an environment variable.
pub open spec fn field_env_name(field: Field) -> Seq<char> {
    match field {
        Field::Cost => "COST"@,
        Field::Duration => "DURATION"@,
        Field::Model => "MODEL"@,
        Field::Percentage => "PERCENTAGE"@,
        Field::Tokens => "TOKENS"@,
    }
}

/// The environment variable that overrides one attribute of a field:
/// `CLAUDE_STATUSLINE_<FIELD>_<ATTRIBUTE>`.
pub open spec fn env_key_of(field: Field, attribute: Seq<char>) -> Seq<char> {
    "CLAUDE_STATUSLINE_"@ + field_env_name(field) + "_"@ + attribute
}

pub open spec fn icon_key(field: Field) -> Seq<char> {
    env_key_of(field, "ICON"@)
}

pub open spec fn color_key(field: Field) -> Seq<char> {
    env_key_of(field, "COLOR"@)
}

fn field_env_str(field: Field) -> (r: &'static str)
    ensures
        r@ == field_env_name(field),
{
    match field {
        Field::Cost => "COST",
        Field::Duration => "DURATION",
        Field::Model => "MODEL",
        Field::Percentage => "PERCENTAGE",
        Field::Tokens => "TOKENS",
    }
}

/// The name of the environment variable for `attribute` of `field`.
pub fn env_key(field: Field, attribute: &str) -> (r: String)
    ensures
        r@ == env_key_of(field, attribute@),
{
    let mut key = String::from_str("CLAUDE_STATUSLINE_");
    key.append(field_env_str(field));
    key.append("_");
    key.append(attribute);
    key
}

pub open spec fn is_digit(c: char) -> bool {
    '0' <= c && c <= '9'
}

/// The number that a run of decimal digits denotes.
pub open spec fn digits_value(s: Seq<char>) -> nat
    decreases s.len(),
{
    if s.len() == 0 {
        0
    } else {
        digits_value(s.drop_last()) * 10 + ((s.last() as u32 - '0' as u32) as nat)
    }
}

/// A palette index written as an environment value: one or more decimal
/// digits denoting a number from 0 to 255.
pub open spec fn color_value(s: Seq<char>) -> Option<u8> {
    if 0 < s.len() && (forall|i: int| 0 <= i < s.len() ==> is_digit(#[trigger] s[i]))
        && digits_value(s) <= 255 {
        Some(digits_value(s) as u8)
    } else {
        None
    }
}

/// Reads a palette index from an environment value.
pub fn parse_color(s: &str) -> (r: Option<u8>)
    ensures
        r == color_value(s@),
{
    let n = s.unicode_len();
    if n == 0 {
        return None;
    }
    let mut value: u32 = 0;
    let mut i: usize = 0;
    while i < n
        invariant
            n == s@.len(),
            i <= n,
            forall|j: int| 0 <= j < i ==> is_digit(#[trigger] s@[j]),
            digits_value(s@.take(i as int)) <= 255 ==> value as nat == digits_value(s@.take(i as int)),
            digits_value(s@.take(i as int)) > 255 ==> value == 256,
        decreases n - i,
    {
        let c = s.get_char(i);
        if !('0' <= c && c <= '9') {
            return None;
        }
        let d: u32 = c as u32 - '0' as u32;
        assert(s@.take(i + 1).drop_last() =~= s@.take(i as int));
        if value <= 255 {
            value = value * 10 + d;
            if value > 255 {
                value = 256;
            }
        }
        i = i + 1;
    }
    assert(s@.take(n as int) =~= s@);
    if value <= 255 {
        Some(value as u8)
    } else {
        None
    }
}

/// A field's settings after an override of its icon and colour, where given.
pub open spec fn overlay(
    base: Option<ComponentView>,
    icon: Option<Seq<char>>,
    color: Option<u8>,
) -> Option<ComponentView> {
    if icon is None && color is None {
        base
    } else {
        let b: ComponentView = match base {
            Some(b) => b,
            None => (None, None),
        };
        Some(
            (
                if color is Some { color } else { b.0 },
                if icon is Some { icon } else { b.1 },
            ),
        )
    }
}

/// The value of the last variable named `key`.
pub open spec fn env_icon(vars: Seq<(String, String)>, key: Seq<char>) -> Option<Seq<char>>
    decreases vars.len(),
{
    if vars.len() == 0 {
        None
    } else if vars.last().0@ == key {
        Some(vars.last().1@)
    } else {
        env_icon(vars.drop_last(), key)
    }
}

/// The palette index of the last variable named `key` whose value is one.
pub open spec fn env_color(vars: Seq<(String, String)>, key: Seq<char>) -> Option<u8>
    decreases vars.len(),
{
    if vars.len() == 0 {
        None
    } else if vars.last().0@ == key && color_value(vars.last().1@) is Some {
        color_value(vars.last().1@)
    } else {
        env_color(vars.drop_last(), key)
    }
}

/// What a field's settings are once the environment `vars` is applied.
pub open spec fn resolved(
    file: Option<ComponentView>,
    vars: Seq<(String, String)>,
    field: Field,
) -> Option<ComponentView> {
    overlay(file, env_icon(vars, icon_key(field)), env_color(vars, color_key(field)))
}

fn set_icon(slot: &mut Option<ClaudeStatusLineComponentConfig>, icon: String)
    ensures
        slot_view(*final(slot)) == overlay(slot_view(*old(slot)), Some(icon@), None),
{
    let color = match &*slot {
        Some(c) => c.color,
        None => None,
    };
    *slot = Some(ClaudeStatusLineComponentConfig { color, icon: Some(icon) });
}

fn set_color(slot: &mut Option<ClaudeStatusLineComponentConfig>, color: u8)
    ensures
        slot_view(*final(slot)) == overlay(slot_view(*old(slot)), None, Some(color)),
{
    let icon = match slot.take() {
        Some(c) => c.icon,
        None => None,
    };
    *slot = Some(ClaudeStatusLineComponentConfig { color: Some(color), icon });
}

/// Applies one environment variable to the settings of `field`.
fn apply_var(
    slot: &mut Option<ClaudeStatusLineComponentConfig>,
    field: Field,
    key: &String,
    value: &String,
)
    ensures
        slot_view(*final(slot)) == overlay(
            slot_view(*old(slot)),
            if key@ == icon_key(field) { Some(value@) } else { None },
            if key@ == color_key(field) { color_value(value@) } else { None },
        ),
{
    let icon_name = env_key(field, "ICON");
    let color_name = env_key(field, "COLOR");
    if *key == icon_name {
        set_icon(slot, value.clone());
    }
    if *key == color_name {
        match parse_color(value.as_str()) {
            Some(c) => set_color(slot, c),
            None => {},
        }
    }
}

proof fn lemma_resolved_step(file: Option<ComponentView>, vars: Seq<(String, String)>, i: int, field: Field)
    requires
        0 <= i < vars.len(),
    ensures
        resolved(file, vars.take(i + 1), field) == overlay(
            resolved(file, vars.take(i), field),
            if vars[i].0@ == icon_key(field) { Some(vars[i].1@) } else { None },
            if vars[i].0@ == color_key(field) { color_value(vars[i].1@) } else { None },
        ),
{
    assert(vars.take(i + 1).drop_last() =~= vars.take(i));
    assert(vars.take(i + 1).last() == vars[i]);
}

/// Resolves the settings of every field from the configuration file's
/// settings (`file`) and the environment (`vars`, name and value pairs in
/// order). An environment variable `CLAUDE_STATUSLINE_<FIELD>_ICON` or
/// `CLAUDE_STATUSLINE_<FIELD>_COLOR` takes precedence over the file; where
/// a name occurs more than once, the last occurrence counts, and a colour
/// value that is not a number from 0 to 255 is ignored.
pub fn get_config(file: ClaudeStatusLineConfig, vars: &Vec<(String, String)>) -> (r: ClaudeStatusLineConfig)
    ensures
        forall|f: Field| #[trigger] r.component(f) == resolved(file.component(f), vars@, f),
{
    let mut cfg = file;
    let mut i: usize = 0;
    while i < vars.len()
        invariant
            i <= vars@.len(),
            forall|f: Field| #[trigger] cfg.component(f) == resolved(file.component(f), vars@.take(i as int), f),
        decreases vars@.len() - i,
    {
        let ghost prev = cfg;
        let key = &vars[i].0;
        let value = &vars[i].1;
        apply_var(&mut cfg.cost, Field::Cost, key, value);
        apply_var(&mut cfg.duration, Field::Duration, key, value);
        apply_var(&mut cfg.model, Field::Model, key, value);
        apply_var(&mut cfg.percentage, Field::Percentage, key, value);
        apply_var(&mut cfg.tokens, Field::Tokens, key, value);
        proof {
            assert forall|f: Field| #[trigger] cfg.component(f) == resolved(
                file.component(f),
                vars@.take(i + 1),
                f,
            ) by {
                lemma_resolved_step(file.component(f), vars@, i as int, f);
                assert(prev.component(f) == resolved(file.component(f), vars@.take(i as int), f));
                match f {
                    Field::Cost => {},
                    Field::Duration => {},
                    Field::Model => {},
                    Field::Percentage => {},
                    Field::Tokens => {},
                }
            }
        }
        i = i + 1;
    }
    assert(vars@.take(vars@.len() as int) =~= vars@);
    cfg
}

/// An icon that the environment sets for a field takes precedence over the
/// icon that the configuration file sets for it, and over the default;
/// where the environment sets none, the file's icon (else the default) stays.
pub proof fn env_icon_overrides_file(
    file: ClaudeStatusLineConfig,
    vars: Seq<(String, String)>,
    field: Field,
    default: Seq<char>,
)
    ensures
        env_icon(vars, icon_key(field)) matches Some(v) ==> icon_or(
            resolved(file.component(field), vars, field),
            default,
        ) == v,
        env_icon(vars, icon_key(field)) is None ==> icon_or(
            resolved(file.component(field), vars, field),
            default,
        ) == icon_or(file.component(field), default),
{
}

} // verus!
