use vstd::prelude::*;
use vstd::string::StrSliceExecFns;

use crate::text::{
    invisible, lemma_ok_concat, lemma_plain_ok, lemma_repeat, lemma_single, no_newline,
    ok_text, owned, plain, push_char, push_str, repeat, repeat_char,
};

verus! {

/// Width of the label column in the main card rows.
pub const LABEL_WIDTH: usize = 9;

/// Width of the label column in the system cells.
pub const SYS_LABEL_WIDTH: usize = 4;

/// The resolved colour set a card is painted with: each field holds the
/// escape sequence that selects a colour (empty in plain mode), `reset`
/// ends any styling, and the `*_hex` fields are the gradient stops of the
/// clock text.
pub struct Palette {
    pub is_plain: bool,
    pub reset: String,
    pub bold: String,
    pub border: String,
    pub muted: String,
    pub primary: String,
    pub mascot: String,
    pub title_mew: String,
    pub title_cmd: String,
    pub title_sys: String,
    pub title_context: String,
    pub title_telem: String,
    pub dot_workspace: String,
    pub dot_git: String,
    pub dot_env: String,
    pub dot_task: String,
    pub dot_mood: String,
    pub status_clean: String,
    pub status_dirty: String,
    pub status_error: String,
    pub task_active: String,
    pub gauge_fill: String,
    pub gauge_empty: String,
    pub dot_workspace_hex: String,
    pub title_mew_hex: String,
    /// The swatch colours shown in the palette row.
    pub dots: Vec<String>,
}

/// The colour roles a mascot state can ask for.
#[derive(Clone, Copy, Debug, PartialEq, Eq, Structural)]
pub enum ColorRole {
    StatusClean,
    StatusDirty,
    StatusError,
    TaskActive,
    GaugeFill,
    Muted,
}

/// A styling string: it selects colours only, occupies no column, closes
/// every escape it opens and breaks no line.
pub open spec fn is_code(s: Seq<char>) -> bool {
    invisible(s) && no_newline(s)
}

/// Every styling field of the palette is a styling string.
pub open spec fn palette_ok(p: &Palette) -> bool {
    &&& is_code(p.reset@)
    &&& is_code(p.bold@)
    &&& is_code(p.border@)
    &&& is_code(p.muted@)
    &&& is_code(p.primary@)
    &&& is_code(p.mascot@)
    &&& is_code(p.title_mew@)
    &&& is_code(p.title_cmd@)
    &&& is_code(p.title_sys@)
    &&& is_code(p.title_context@)
    &&& is_code(p.title_telem@)
    &&& is_code(p.dot_workspace@)
    &&& is_code(p.dot_git@)
    &&& is_code(p.dot_env@)
    &&& is_code(p.dot_task@)
    &&& is_code(p.dot_mood@)
    &&& is_code(p.status_clean@)
    &&& is_code(p.status_dirty@)
    &&& is_code(p.status_error@)
    &&& is_code(p.task_active@)
    &&& is_code(p.gauge_fill@)
    &&& is_code(p.gauge_empty@)
    &&& forall|i: int| 0 <= i < p.dots@.len() ==> is_code(#[trigger] p.dots@[i]@)
}

/// Styling strings are well placed.
pub broadcast proof fn lemma_code_ok(s: Seq<char>)
    requires
        is_code(s),
    ensures
        #[trigger] ok_text(s),
{
}

/// The accent string of a colour role.
pub open spec fn accent_of(role: ColorRole, p: &Palette) -> Seq<char> {
    match role {
        ColorRole::StatusClean => p.status_clean@,
        ColorRole::StatusDirty => p.status_dirty@,
        ColorRole::StatusError => p.status_error@,
        ColorRole::TaskActive => p.task_active@,
        ColorRole::GaugeFill => p.gauge_fill@,
        ColorRole::Muted => p.muted@,
    }
}

/// `s` filled with spaces on the right to `n` characters, as the `{:<n}`
/// format does; longer text is left as it is.
pub open spec fn fill(s: Seq<char>, n: nat) -> Seq<char> {
    if s.len() < n {
        s + repeat(' ', (n - s.len()) as nat)
    } else {
        s
    }
}

/// A muted label cell of the main rows.
pub open spec fn label_spec(p: &Palette, text: Seq<char>) -> Seq<char> {
    p.muted@ + fill(text, LABEL_WIDTH as nat) + p.reset@
}

/// A muted label cell of the system rows.
pub open spec fn sys_label_spec(p: &Palette, text: Seq<char>) -> Seq<char> {
    p.muted@ + fill(text, SYS_LABEL_WIDTH as nat) + p.reset@
}

/// The palette row: one `●` swatch per colour, separated by spaces.
pub open spec fn dots_spec(p: &Palette, n: nat) -> Seq<char>
    decreases n,
{
    if n == 0 {
        Seq::empty()
    } else if n == 1 {
        p.dots@[0]@ + seq!['●'] + p.reset@
    } else {
        dots_spec(p, (n - 1) as nat) + seq![' '] + p.dots@[n - 1]@ + seq!['●'] + p.reset@
    }
}


/// A label is well placed when its text is plain.
pub proof fn lemma_label_ok(p: &Palette, text: Seq<char>, n: nat)
    requires
        palette_ok(p),
        plain(text),
    ensures
        ok_text(p.muted@ + fill(text, n) + p.reset@),
{
    broadcast use lemma_ok_concat, lemma_plain_ok, lemma_code_ok;

    if text.len() < n {
        lemma_repeat(' ', (n - text.len()) as nat);
        assert(ok_text(text + repeat(' ', (n - text.len()) as nat)));
    }
    assert(ok_text(fill(text, n)));
    assert(ok_text(p.muted@ + fill(text, n)));
}

/// The palette row is well placed.
pub proof fn lemma_dots_ok(p: &Palette, n: nat)
    requires
        palette_ok(p),
        n <= p.dots@.len(),
    ensures
        ok_text(dots_spec(p, n)),
    decreases n,
{
    broadcast use lemma_ok_concat, lemma_plain_ok, lemma_code_ok;

    lemma_single('●');
    assert(plain(seq!['●']));
    assert(plain(seq![' ']));
    if n == 1 {
        assert(is_code(p.dots@[0]@));
        assert(ok_text(p.dots@[0]@ + seq!['●']));
    } else if n > 1 {
        lemma_dots_ok(p, (n - 1) as nat);
        assert(is_code(p.dots@[n - 1]@));
        assert(ok_text(dots_spec(p, (n - 1) as nat) + seq![' ']));
        assert(ok_text(dots_spec(p, (n - 1) as nat) + seq![' '] + p.dots@[n - 1]@));
        assert(ok_text(dots_spec(p, (n - 1) as nat) + seq![' '] + p.dots@[n - 1]@ + seq!['●']));
    } else {
        assert(plain(Seq::<char>::empty()));
    }
}

/// The value of a hexadecimal digit, or -1 for another character.
pub open spec fn hex_value(c: char) -> int {
    if '0' <= c && c <= '9' {
        c as int - '0' as int
    } else if 'a' <= c && c <= 'f' {
        c as int - 'a' as int + 10
    } else if 'A' <= c && c <= 'F' {
        c as int - 'A' as int + 10
    } else {
        -1
    }
}

/// The six digits of a colour, after an optional leading `#`.
pub open spec fn hex_digits(s: Seq<char>) -> Seq<char> {
    if s.len() > 0 && s[0] == '#' {
        s.drop_first()
    } else {
        s
    }
}

/// `s` spells a colour as `#rrggbb` (the `#` optional).
pub open spec fn is_hex_color(s: Seq<char>) -> bool {
    hex_digits(s).len() == 6 && forall|i: int| 0 <= i < 6 ==> hex_value(#[trigger] hex_digits(s)[i]) >= 0
}

/// The channel spelled by the two digits at `k` and `k + 1`.
pub open spec fn hex_byte(t: Seq<char>, k: int) -> u8 {
    (16 * hex_value(t[k]) + hex_value(t[k + 1])) as u8
}

/// The red, green and blue channels of a `#rrggbb` colour; text that is not
/// such a colour reads as white.
pub open spec fn hex_rgb(s: Seq<char>) -> (u8, u8, u8) {
    if is_hex_color(s) {
        let t = hex_digits(s);
        (hex_byte(t, 0), hex_byte(t, 2), hex_byte(t, 4))
    } else {
        (255u8, 255u8, 255u8)
    }
}

/// Fills `text` with spaces to `n` characters (the `{:<n}` format).
pub fn fill_to(text: &str, n: usize) -> (r: String)
    ensures
        r@ == fill(text@, n as nat),
{
    let len = text.unicode_len();
    let mut out = owned(text);
    if len < n {
        let pad = repeat_char(' ', n - len);
        push_str(&mut out, pad.as_str());
    }
    out
}

/// A muted, column-aligned label of the main card rows.
pub fn label(p: &Palette, text: &str) -> (r: String)
    ensures
        r@ == label_spec(p, text@),
{
    let mut out = owned(p.muted.as_str());
    let f = fill_to(text, LABEL_WIDTH);
    push_str(&mut out, f.as_str());
    push_str(&mut out, p.reset.as_str());
    out
}

/// A muted, column-aligned label of the system cells.
pub fn sys_label(p: &Palette, text: &str) -> (r: String)
    ensures
        r@ == sys_label_spec(p, text@),
{
    let mut out = owned(p.muted.as_str());
    let f = fill_to(text, SYS_LABEL_WIDTH);
    push_str(&mut out, f.as_str());
    push_str(&mut out, p.reset.as_str());
    out
}

/// The accent colour of a mascot colour role.
pub fn mascot_accent(role: ColorRole, p: &Palette) -> (r: &String)
    ensures
        r@ == accent_of(role, p),
{
    match role {
        ColorRole::StatusClean => &p.status_clean,
        ColorRole::StatusDirty => &p.status_dirty,
        ColorRole::StatusError => &p.status_error,
        ColorRole::TaskActive => &p.task_active,
        ColorRole::GaugeFill => &p.gauge_fill,
        ColorRole::Muted => &p.muted,
    }
}

impl Palette {
    /// The palette row: a `●` swatch in each palette colour.
    pub fn color_palette_dots(&self) -> (r: String)
        ensures
            r@ == dots_spec(self, self.dots@.len()),
    {
        let mut out = String::new();
        let mut i: usize = 0;
        while i < self.dots.len()
            invariant
                i <= self.dots@.len(),
                out@ == dots_spec(self, i as nat),
            decreases self.dots@.len() - i,
        {
            if i > 0 {
                push_char(&mut out, ' ');
            }
            push_str(&mut out, self.dots[i].as_str());
            push_char(&mut out, '●');
            push_str(&mut out, self.reset.as_str());
            i = i + 1;
            proof {
                if i == 1 {
                    assert(out@ =~= dots_spec(self, 1));
                } else {
                    assert(out@ =~= dots_spec(self, i as nat));
                }
            }
        }
        out
    }
}

fn hex_char_value(c: char) -> (v: i64)
    ensures
        v == hex_value(c),
        -1 <= v <= 15,
{
    if '0' <= c && c <= '9' {
        (c as u32 - '0' as u32) as i64
    } else if 'a' <= c && c <= 'f' {
        (c as u32 - 'a' as u32 + 10) as i64
    } else if 'A' <= c && c <= 'F' {
        (c as u32 - 'A' as u32 + 10) as i64
    } else {
        -1
    }
}

/// Reads a `#rrggbb` colour into its channels; anything else reads as white.
pub fn hex_to_rgb(hex: &str) -> (r: (u8, u8, u8))
    ensures
        r == hex_rgb(hex@),
{
    let len = hex.unicode_len();
    let start: usize = if len > 0 && hex.get_char(0) == '#' {
        1
    } else {
        0
    };
    let ghost t = hex_digits(hex@);
    proof {
        if start == 1 {
            assert(t.len() == len - 1);
            assert(forall|i: int| 0 <= i < t.len() ==> t[i] == hex@[i + 1]);
        } else {
            assert(t == hex@);
        }
    }
    if len - start != 6 {
        return (255, 255, 255);
    }
    let mut vals: [i64; 6] = [0, 0, 0, 0, 0, 0];
    let mut i: usize = 0;
    while i < 6
        invariant
            0 <= i <= 6,
            len == hex@.len(),
            len - start == 6,
            t == hex_digits(hex@),
            t.len() == 6,
            forall|j: int| 0 <= j < t.len() ==> t[j] == hex@[j + start],
            forall|j: int| 0 <= j < i ==> vals@[j] == hex_value(#[trigger] t[j]),
            forall|j: int| 0 <= j < i ==> 0 <= #[trigger] vals@[j] <= 15,
        decreases 6 - i,
    {
        let v = hex_char_value(hex.get_char(start + i));
        assert(t[i as int] == hex@[i + start]);
        if v < 0 {
            assert(hex_value(t[i as int]) < 0);
            assert(!is_hex_color(hex@));
            return (255, 255, 255);
        }
        vals[i] = v;
        i = i + 1;
    }
    assert(forall|j: int| 0 <= j < 6 ==> hex_value(#[trigger] t[j]) >= 0);
    assert(is_hex_color(hex@));
    let r = (16 * vals[0] + vals[1]) as u8;
    let g = (16 * vals[2] + vals[3]) as u8;
    let b = (16 * vals[4] + vals[5]) as u8;
    (r, g, b)
}

// ---------------------------------------------------------------------------
// Themes
// ---------------------------------------------------------------------------

/// Whether the card is painted in true colour or left plain.
#[derive(Clone, Copy, Debug, PartialEq, Eq, Structural)]
pub enum ColorMode {
    Truecolor,
    Plain,
}

/// The colours of a theme, each a `#rrggbb` hex code.
pub struct ThemeColors {
    pub border: String,
    pub muted: String,
    pub primary: String,
    pub mascot: String,
    pub title_mew: String,
    pub title_cmd: String,
    pub title_sys: String,
    pub title_context: String,
    pub title_telem: String,
    pub dot_workspace: String,
    pub dot_git: String,
    pub dot_env: String,
    pub dot_task: String,
    pub dot_mood: String,
    pub status_clean: String,
    pub status_dirty: String,
    pub status_error: String,
    pub task_active: String,
    pub gauge_fill: String,
    pub gauge_empty: String,
    /// The swatch colours of the palette row.
    pub dots: Vec<String>,
}

/// A theme: its colours.
pub struct ThemeConfig {
    pub colors: ThemeColors,
}

impl Default for ThemeColors {
    /// The default theme (catppuccin mocha).
    fn default() -> (r: Self)
        ensures
            r.border@ == "#585b70"@,
            r.muted@ == "#6c7086"@,
            r.primary@ == "#cdd6f4"@,
            r.mascot@ == "#f5c2e7"@,
            r.title_mew@ == "#cba6f7"@,
            r.title_cmd@ == "#f38ba8"@,
            r.title_sys@ == "#89b4fa"@,
            r.title_context@ == "#94e2d5"@,
            r.title_telem@ == "#fab387"@,
            r.dot_workspace@ == "#89dceb"@,
            r.dot_git@ == "#fab387"@,
            r.dot_env@ == "#a6e3a1"@,
            r.dot_task@ == "#74c7ec"@,
            r.dot_mood@ == "#f9e2af"@,
            r.status_clean@ == "#a6e3a1"@,
            r.status_dirty@ == "#f9e2af"@,
            r.status_error@ == "#f38ba8"@,
            r.task_active@ == "#74c7ec"@,
            r.gauge_fill@ == "#89b4fa"@,
            r.gauge_empty@ == "#45475a"@,
            r.dots@.len() == 8,
            r.dots@[0]@ == "#f38ba8"@,
            r.dots@[1]@ == "#fab387"@,
            r.dots@[2]@ == "#f9e2af"@,
            r.dots@[3]@ == "#a6e3a1"@,
            r.dots@[4]@ == "#94e2d5"@,
            r.dots@[5]@ == "#89dceb"@,
            r.dots@[6]@ == "#89b4fa"@,
            r.dots@[7]@ == "#cba6f7"@,
    {
        let mut dots: Vec<String> = Vec::new();
        dots.push(owned("#f38ba8"));
        dots.push(owned("#fab387"));
        dots.push(owned("#f9e2af"));
        dots.push(owned("#a6e3a1"));
        dots.push(owned("#94e2d5"));
        dots.push(owned("#89dceb"));
        dots.push(owned("#89b4fa"));
        dots.push(owned("#cba6f7"));
        ThemeColors {
            border: owned("#585b70"),
            muted: owned("#6c7086"),
            primary: owned("#cdd6f4"),
            mascot: owned("#f5c2e7"),
            title_mew: owned("#cba6f7"),
            title_cmd: owned("#f38ba8"),
            title_sys: owned("#89b4fa"),
            title_context: owned("#94e2d5"),
            title_telem: owned("#fab387"),
            dot_workspace: owned("#89dceb"),
            dot_git: owned("#fab387"),
            dot_env: owned("#a6e3a1"),
            dot_task: owned("#74c7ec"),
            dot_mood: owned("#f9e2af"),
            status_clean: owned("#a6e3a1"),
            status_dirty: owned("#f9e2af"),
            status_error: owned("#f38ba8"),
            task_active: owned("#74c7ec"),
            gauge_fill: owned("#89b4fa"),
            gauge_empty: owned("#45475a"),
            dots,
        }
    }
}

impl Default for ThemeConfig {
    /// The default theme.
    fn default() -> (r: Self)
        ensures
            r.colors.dots@.len() == 8,
            r.colors.border@ == "#585b70"@,
            r.colors.muted@ == "#6c7086"@,
            r.colors.primary@ == "#cdd6f4"@,
            r.colors.mascot@ == "#f5c2e7"@,
            r.colors.title_mew@ == "#cba6f7"@,
            r.colors.title_cmd@ == "#f38ba8"@,
            r.colors.title_sys@ == "#89b4fa"@,
            r.colors.title_context@ == "#94e2d5"@,
            r.colors.title_telem@ == "#fab387"@,
            r.colors.dot_workspace@ == "#89dceb"@,
            r.colors.dot_git@ == "#fab387"@,
            r.colors.dot_env@ == "#a6e3a1"@,
            r.colors.dot_task@ == "#74c7ec"@,
            r.colors.dot_mood@ == "#f9e2af"@,
            r.colors.status_clean@ == "#a6e3a1"@,
            r.colors.status_dirty@ == "#f9e2af"@,
            r.colors.status_error@ == "#f38ba8"@,
            r.colors.task_active@ == "#74c7ec"@,
            r.colors.gauge_fill@ == "#89b4fa"@,
            r.colors.gauge_empty@ == "#45475a"@,
    {
        ThemeConfig { colors: ThemeColors::default() }
    }
}

/// The escape sequence that paints in the colour `hex`, or nothing in
/// plain mode.
pub open spec fn styled(hex: Seq<char>, mode: ColorMode) -> Seq<char> {
    match mode {
        ColorMode::Plain => Seq::empty(),
        ColorMode::Truecolor => crate::widgets::truecolor(hex_rgb(hex).0, hex_rgb(hex).1, hex_rgb(hex).2),
    }
}

/// A fixed escape sequence, or nothing in plain mode.
pub open spec fn styled_fixed(code: Seq<char>, mode: ColorMode) -> Seq<char> {
    match mode {
        ColorMode::Plain => Seq::empty(),
        ColorMode::Truecolor => code,
    }
}

/// A colour selector is a styling string.
proof fn lemma_styled_code(hex: Seq<char>, mode: ColorMode)
    ensures
        is_code(styled(hex, mode)),
{
    match mode {
        ColorMode::Plain => {
            assert(crate::text::scan(Seq::<char>::empty()) == (0nat, false));
        },
        ColorMode::Truecolor => {
            let (r, g, b) = hex_rgb(hex);
            crate::widgets::lemma_truecolor(r, g, b);
            crate::widgets::lemma_truecolor_no_newline(r, g, b);
            crate::text::lemma_escape_seq(crate::widgets::truecolor(r, g, b));
        },
    }
}

/// The reset and bold sequences are styling strings.
proof fn lemma_fixed_codes(mode: ColorMode)
    ensures
        is_code(styled_fixed("\x1b[0m"@, mode)),
        is_code(styled_fixed("\x1b[1m"@, mode)),
{
    reveal_strlit("\x1b[0m");
    reveal_strlit("\x1b[1m");
    assert(crate::text::scan(Seq::<char>::empty()) == (0nat, false));
    crate::text::lemma_escape_seq("\x1b[0m"@);
    crate::text::lemma_escape_seq("\x1b[1m"@);
}

fn styled_string(hex: &str, mode: ColorMode) -> (r: String)
    ensures
        r@ == styled(hex@, mode),
{
    match mode {
        ColorMode::Plain => String::new(),
        ColorMode::Truecolor => {
            let (r, g, b) = hex_to_rgb(hex);
            let mut s = String::new();
            crate::widgets::push_truecolor(&mut s, r, g, b);
            assert(s@ =~= styled(hex@, mode));
            s
        },
    }
}

fn styled_fixed_string(code: &str, mode: ColorMode) -> (r: String)
    ensures
        r@ == styled_fixed(code@, mode),
{
    match mode {
        ColorMode::Plain => String::new(),
        ColorMode::Truecolor => owned(code),
    }
}

impl Palette {
    /// Resolves a theme into the palette a card is painted with: each colour
    /// becomes its true-colour selector (nothing in plain mode), and the
    /// clock gradient takes its stops from the workspace and title colours.
    pub fn from_config(config: &ThemeConfig, mode: ColorMode) -> (r: Palette)
        ensures
            r.is_plain == (mode == ColorMode::Plain),
            r.reset@ == styled_fixed("\x1b[0m"@, mode),
            r.bold@ == styled_fixed("\x1b[1m"@, mode),
            r.border@ == styled(config.colors.border@, mode),
            r.muted@ == styled(config.colors.muted@, mode),
            r.primary@ == styled(config.colors.primary@, mode),
            r.mascot@ == styled(config.colors.mascot@, mode),
            r.title_mew@ == styled(config.colors.title_mew@, mode),
            r.title_cmd@ == styled(config.colors.title_cmd@, mode),
            r.title_sys@ == styled(config.colors.title_sys@, mode),
            r.title_context@ == styled(config.colors.title_context@, mode),
            r.title_telem@ == styled(config.colors.title_telem@, mode),
            r.dot_workspace@ == styled(config.colors.dot_workspace@, mode),
            r.dot_git@ == styled(config.colors.dot_git@, mode),
            r.dot_env@ == styled(config.colors.dot_env@, mode),
            r.dot_task@ == styled(config.colors.dot_task@, mode),
            r.dot_mood@ == styled(config.colors.dot_mood@, mode),
            r.status_clean@ == styled(config.colors.status_clean@, mode),
            r.status_dirty@ == styled(config.colors.status_dirty@, mode),
            r.status_error@ == styled(config.colors.status_error@, mode),
            r.task_active@ == styled(config.colors.task_active@, mode),
            r.gauge_fill@ == styled(config.colors.gauge_fill@, mode),
            r.gauge_empty@ == styled(config.colors.gauge_empty@, mode),
            r.dot_workspace_hex@ == config.colors.dot_workspace@,
            r.title_mew_hex@ == config.colors.title_mew@,
            r.dots@.len() == config.colors.dots@.len(),
            forall|i: int| 0 <= i < r.dots@.len() ==> #[trigger] r.dots@[i]@ == styled(config.colors.dots@[i]@, mode),
            palette_ok(&r),
    {
        let c = &config.colors;
        let mut dots: Vec<String> = Vec::new();
        let mut i: usize = 0;
        while i < c.dots.len()
            invariant
                i <= c.dots@.len(),
                dots@.len() == i,
                forall|j: int| 0 <= j < i ==> #[trigger] dots@[j]@ == styled(c.dots@[j]@, mode),
            decreases c.dots@.len() - i,
        {
            let d = styled_string(c.dots[i].as_str(), mode);
            dots.push(d);
            i = i + 1;
        }
        let r = Palette {
            is_plain: mode == ColorMode::Plain,
            reset: styled_fixed_string("\x1b[0m", mode),
            bold: styled_fixed_string("\x1b[1m", mode),
            border: styled_string(c.border.as_str(), mode),
            muted: styled_string(c.muted.as_str(), mode),
            primary: styled_string(c.primary.as_str(), mode),
            mascot: styled_string(c.mascot.as_str(), mode),
            title_mew: styled_string(c.title_mew.as_str(), mode),
            title_cmd: styled_string(c.title_cmd.as_str(), mode),
            title_sys: styled_string(c.title_sys.as_str(), mode),
            title_context: styled_string(c.title_context.as_str(), mode),
            title_telem: styled_string(c.title_telem.as_str(), mode),
            dot_workspace: styled_string(c.dot_workspace.as_str(), mode),
            dot_git: styled_string(c.dot_git.as_str(), mode),
            dot_env: styled_string(c.dot_env.as_str(), mode),
            dot_task: styled_string(c.dot_task.as_str(), mode),
            dot_mood: styled_string(c.dot_mood.as_str(), mode),
            status_clean: styled_string(c.status_clean.as_str(), mode),
            status_dirty: styled_string(c.status_dirty.as_str(), mode),
            status_error: styled_string(c.status_error.as_str(), mode),
            task_active: styled_string(c.task_active.as_str(), mode),
            gauge_fill: styled_string(c.gauge_fill.as_str(), mode),
            gauge_empty: styled_string(c.gauge_empty.as_str(), mode),
            dot_workspace_hex: c.dot_workspace.clone(),
            title_mew_hex: c.title_mew.clone(),
            dots,
        };
        proof {
            lemma_fixed_codes(mode);
            lemma_styled_code(c.border@, mode);
            lemma_styled_code(c.muted@, mode);
            lemma_styled_code(c.primary@, mode);
            lemma_styled_code(c.mascot@, mode);
            lemma_styled_code(c.title_mew@, mode);
            lemma_styled_code(c.title_cmd@, mode);
            lemma_styled_code(c.title_sys@, mode);
            lemma_styled_code(c.title_context@, mode);
            lemma_styled_code(c.title_telem@, mode);
            lemma_styled_code(c.dot_workspace@, mode);
            lemma_styled_code(c.dot_git@, mode);
            lemma_styled_code(c.dot_env@, mode);
            lemma_styled_code(c.dot_task@, mode);
            lemma_styled_code(c.dot_mood@, mode);
            lemma_styled_code(c.status_clean@, mode);
            lemma_styled_code(c.status_dirty@, mode);
            lemma_styled_code(c.status_error@, mode);
            lemma_styled_code(c.task_active@, mode);
            lemma_styled_code(c.gauge_fill@, mode);
            lemma_styled_code(c.gauge_empty@, mode);
            assert forall|j: int| 0 <= j < r.dots@.len() implies is_code(#[trigger] r.dots@[j]@) by {
                lemma_styled_code(c.dots@[j]@, mode);
            }
        }
        r
    }
}

} // verus!
