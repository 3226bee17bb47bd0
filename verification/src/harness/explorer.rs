//! The pipeline explorer's state machine: what each key does to the
//! selection, the focused panel, the scroll positions, the command line and
//! the status line, and which piece of outside work (an export, a step of
//! the active session) the front end must carry out.
use vstd::prelude::*;
use vstd::string::StrSliceExecFns;

use super::a64_pretty::{self, push_dec, push_hex, push_hex0x};
use super::active_step::{self, StateSnapshot};
use super::model::{self, Flags, MachineState, MachineView};
use super::mouse::{self, MouseAction, MouseKind, MousePanel, MouseTracker};

verus! {

/// What the explorer has selected: an original pc or a fragment offset.
#[derive(Clone, Copy, Debug, PartialEq, Eq, Structural)]
pub enum Selection {
    Pc(u64),
    Offset(usize),
}

/// Exploring the pipeline's stages, or stepping both sides side by side.
#[derive(Clone, Copy, Debug, PartialEq, Eq, Structural)]
pub enum Mode {
    Explore,
    ActiveStep,
}

pub open spec fn spec_mode_name(m: Mode) -> &'static str {
    match m {
        Mode::Explore => "explore",
        Mode::ActiveStep => "active-step",
    }
}

impl Mode {
    pub fn name(self) -> (r: &'static str)
        ensures
            r == spec_mode_name(self),
    {
        match self {
            Mode::Explore => "explore",
            Mode::ActiveStep => "active-step",
        }
    }
}

/// Which comparison the step view shows.
#[derive(Clone, Copy, Debug, PartialEq, Eq, Structural)]
pub enum StepDetailMode {
    Compact,
    Registers,
    Memory,
}

pub open spec fn spec_step_detail_name(d: StepDetailMode) -> &'static str {
    match d {
        StepDetailMode::Compact => "compact",
        StepDetailMode::Registers => "registers",
        StepDetailMode::Memory => "memory",
    }
}

impl StepDetailMode {
    pub fn name(self) -> (r: &'static str)
        ensures
            r == spec_step_detail_name(self),
    {
        match self {
            StepDetailMode::Compact => "compact",
            StepDetailMode::Registers => "registers",
            StepDetailMode::Memory => "memory",
        }
    }
}

/// The panel that takes scrolling keys.
#[derive(Clone, Copy, Debug, PartialEq, Eq, Structural)]
pub enum FocusPanel {
    Cfg,
    Rephrase,
    Layout,
}

pub open spec fn spec_focus_next(f: FocusPanel) -> FocusPanel {
    match f {
        FocusPanel::Cfg => FocusPanel::Rephrase,
        FocusPanel::Rephrase => FocusPanel::Layout,
        FocusPanel::Layout => FocusPanel::Cfg,
    }
}

pub open spec fn spec_focus_prev(f: FocusPanel) -> FocusPanel {
    match f {
        FocusPanel::Cfg => FocusPanel::Layout,
        FocusPanel::Rephrase => FocusPanel::Cfg,
        FocusPanel::Layout => FocusPanel::Rephrase,
    }
}

pub open spec fn spec_focus_name(f: FocusPanel) -> &'static str {
    match f {
        FocusPanel::Cfg => "Program",
        FocusPanel::Rephrase => "Translation",
        FocusPanel::Layout => "Result",
    }
}

/// Moving the focus forward and then back returns to the same panel, and
/// three moves forward go round once.
pub proof fn lemma_focus_cycle(f: FocusPanel)
    ensures
        spec_focus_prev(spec_focus_next(f)) == f,
        spec_focus_next(spec_focus_prev(f)) == f,
        spec_focus_next(spec_focus_next(spec_focus_next(f))) == f,
{
}

impl FocusPanel {
    /// The next panel, cycling.
    pub fn next(self) -> (r: Self)
        ensures
            r == spec_focus_next(self),
    {
        match self {
            FocusPanel::Cfg => FocusPanel::Rephrase,
            FocusPanel::Rephrase => FocusPanel::Layout,
            FocusPanel::Layout => FocusPanel::Cfg,
        }
    }

    /// The previous panel, cycling.
    pub fn prev(self) -> (r: Self)
        ensures
            r == spec_focus_prev(self),
    {
        match self {
            FocusPanel::Cfg => FocusPanel::Layout,
            FocusPanel::Rephrase => FocusPanel::Cfg,
            FocusPanel::Layout => FocusPanel::Rephrase,
        }
    }

    /// The panel's title.
    pub fn name(self) -> (r: &'static str)
        ensures
            r == spec_focus_name(self),
    {
        match self {
            FocusPanel::Cfg => "Program",
            FocusPanel::Rephrase => "Translation",
            FocusPanel::Layout => "Result",
        }
    }
}

/// A key the explorer reacts to.
#[derive(Clone, Copy, Debug, PartialEq, Eq, Structural)]
pub enum ExplorerKey {
    Char(char),
    Esc,
    Enter,
    Backspace,
    Up,
    Down,
    Left,
    Right,
    PageUp,
    PageDown,
    Tab,
    BackTab,
    F1,
    Ignored,
}

/// Whether the explorer goes on after a key.
#[derive(Clone, Copy, Debug, PartialEq, Eq, Structural)]
pub enum Control {
    Continue,
    Quit,
}

/// One line of panel text.
#[derive(Clone, Debug)]
pub struct ExplorerLine {
    pub text: String,
}

impl ExplorerLine {
    pub fn new(text: String) -> (r: Self)
        ensures
            r.text@ == text@,
    {
        ExplorerLine { text }
    }
}

/// A panel's text, ready to be written out.
#[derive(Clone, Debug)]
pub struct PanelExport {
    pub title: String,
    pub lines: Vec<String>,
}

/// What a passing end-to-end check of the pipeline measured.
#[derive(Clone, Debug)]
pub struct PipelineCheckPass {
    pub original_steps: usize,
    pub fragment_steps: usize,
    pub encoded_bytes: usize,
    pub halt: String,
}

/// The outcome of the end-to-end check the explorer was opened with.
#[derive(Clone, Debug)]
pub enum PipelineCheck {
    NotRun,
    Passed(PipelineCheckPass),
    Failed { message: String },
}

/// Appends one character to a string, as `String::push` does.
#[verifier::external_body]
fn push_char(s: &mut String, c: char)
    ensures
        final(s)@ == old(s)@.push(c),
{
    s.push(c);
}

/// The characters `char::is_whitespace` accepts: the Unicode `White_Space`
/// property.
pub open spec fn is_space(c: char) -> bool {
    ||| '\t' <= c <= '\r'
    ||| c == ' '
    ||| c == '\u{85}'
    ||| c == '\u{A0}'
    ||| c == '\u{1680}'
    ||| '\u{2000}' <= c <= '\u{200A}'
    ||| c == '\u{2028}'
    ||| c == '\u{2029}'
    ||| c == '\u{202F}'
    ||| c == '\u{205F}'
    ||| c == '\u{3000}'
}

fn is_space_char(c: char) -> (r: bool)
    ensures
        r == is_space(c),
{
    ('\t' <= c && c <= '\r') || c == ' ' || c == '\u{85}' || c == '\u{A0}' || c == '\u{1680}' || ('\u{2000}'
        <= c && c <= '\u{200A}') || c == '\u{2028}' || c == '\u{2029}' || c == '\u{202F}' || c == '\u{205F}'
        || c == '\u{3000}'
}

/// The first index at or after `i` whose character is not white space.
pub open spec fn skip_space(s: Seq<char>, i: int) -> int
    decreases s.len() - i,
{
    if i >= s.len() || i < 0 {
        i
    } else if is_space(s[i]) {
        skip_space(s, i + 1)
    } else {
        i
    }
}

/// The first index at or after `i` whose character is white space.
pub open spec fn token_end(s: Seq<char>, i: int) -> int
    decreases s.len() - i,
{
    if i >= s.len() || i < 0 {
        i
    } else if is_space(s[i]) {
        i
    } else {
        token_end(s, i + 1)
    }
}

/// The last index before `j` whose character is not white space, plus one;
/// `i` when there is none from `i` on.
pub open spec fn trim_end(s: Seq<char>, i: int, j: int) -> int
    decreases j - i,
{
    if j <= i {
        i
    } else if is_space(s[j - 1]) {
        trim_end(s, i, j - 1)
    } else {
        j
    }
}

/// `s` without leading and trailing white space, as `str::trim` gives it.
pub open spec fn trim(s: Seq<char>) -> Seq<char> {
    let a = skip_space(s, 0);
    s.subrange(a, trim_end(s, a, s.len() as int))
}

/// The first index at or after `i` holding `c`, or the length.
pub open spec fn find_char(s: Seq<char>, c: char, i: int) -> int
    decreases s.len() - i,
{
    if i >= s.len() || i < 0 {
        i
    } else if s[i] == c {
        i
    } else {
        find_char(s, c, i + 1)
    }
}

/// The first line of a message, trimmed, as `lines().next()` and `trim()`
/// give it; a placeholder for an empty message.
pub open spec fn first_line_of(s: Seq<char>) -> Seq<char> {
    if s.len() == 0 {
        "no detail"@
    } else {
        let k = find_char(s, '\n', 0);
        let line = s.subrange(0, k);
        if k < s.len() && line.len() > 0 && line.last() == '\r' {
            trim(line.drop_last())
        } else {
            trim(line)
        }
    }
}

proof fn lemma_skip_space_bounds(s: Seq<char>, i: int)
    requires
        0 <= i <= s.len(),
    ensures
        i <= skip_space(s, i) <= s.len(),
        forall|k: int| i <= k < skip_space(s, i) ==> is_space(#[trigger] s[k]),
        skip_space(s, i) < s.len() ==> !is_space(s[skip_space(s, i)]),
    decreases s.len() - i,
{
    if i < s.len() && is_space(s[i]) {
        lemma_skip_space_bounds(s, i + 1);
    }
}

proof fn lemma_token_end_bounds(s: Seq<char>, i: int)
    requires
        0 <= i <= s.len(),
    ensures
        i <= token_end(s, i) <= s.len(),
        forall|k: int| i <= k < token_end(s, i) ==> !is_space(#[trigger] s[k]),
        token_end(s, i) < s.len() ==> is_space(s[token_end(s, i)]),
    decreases s.len() - i,
{
    if i < s.len() && !is_space(s[i]) {
        lemma_token_end_bounds(s, i + 1);
    }
}

proof fn lemma_find_char_bounds(s: Seq<char>, c: char, i: int)
    requires
        0 <= i <= s.len(),
    ensures
        i <= find_char(s, c, i) <= s.len(),
        forall|k: int| i <= k < find_char(s, c, i) ==> #[trigger] s[k] != c,
        find_char(s, c, i) < s.len() ==> s[find_char(s, c, i)] == c,
    decreases s.len() - i,
{
    if i < s.len() && s[i] != c {
        lemma_find_char_bounds(s, c, i + 1);
    }
}

pub(crate) fn skip_space_at(s: &Vec<char>, i: usize) -> (r: usize)
    requires
        i <= s@.len(),
    ensures
        r as int == skip_space(s@, i as int),
        i <= r <= s@.len(),
{
    let mut k = i;
    proof {
        lemma_skip_space_bounds(s@, i as int);
    }
    while k < s.len() && is_space_char(s[k])
        invariant
            i <= k <= s@.len(),
            skip_space(s@, k as int) == skip_space(s@, i as int),
        decreases s@.len() - k,
    {
        k = k + 1;
    }
    k
}

fn token_end_at(s: &Vec<char>, i: usize) -> (r: usize)
    requires
        i <= s@.len(),
    ensures
        r as int == token_end(s@, i as int),
        i <= r <= s@.len(),
{
    let mut k = i;
    proof {
        lemma_token_end_bounds(s@, i as int);
    }
    while k < s.len() && !is_space_char(s[k])
        invariant
            i <= k <= s@.len(),
            token_end(s@, k as int) == token_end(s@, i as int),
        decreases s@.len() - k,
    {
        k = k + 1;
    }
    k
}

pub(crate) fn trim_end_at(s: &Vec<char>, i: usize, j: usize) -> (r: usize)
    requires
        i <= j <= s@.len(),
    ensures
        r as int == trim_end(s@, i as int, j as int),
        i <= r <= j,
{
    let mut k = j;
    while k > i && is_space_char(s[k - 1])
        invariant
            i <= k <= j,
            j <= s@.len(),
            trim_end(s@, i as int, k as int) == trim_end(s@, i as int, j as int),
        decreases k - i,
    {
        k = k - 1;
    }
    k
}

/// The characters of a string.
pub(crate) fn chars_of(s: &str) -> (r: Vec<char>)
    ensures
        r@ == s@,
{
    let n = s.unicode_len();
    let mut r: Vec<char> = Vec::new();
    let mut i: usize = 0;
    while i < n
        invariant
            n == s@.len(),
            i <= n,
            r@ == s@.subrange(0, i as int),
        decreases n - i,
    {
        r.push(s.get_char(i));
        i = i + 1;
        assert(r@ =~= s@.subrange(0, i as int));
    }
    assert(r@ =~= s@);
    r
}

/// `s` without leading and trailing white space.
pub(crate) fn trimmed(s: &str) -> (r: String)
    ensures
        r@ == trim(s@),
{
    let cs = chars_of(s);
    let a = skip_space_at(&cs, 0);
    let b = trim_end_at(&cs, a, cs.len());
    let mut out = String::new();
    push_range(&mut out, &cs, a, b);
    assert(out@ =~= s@.subrange(a as int, b as int));
    out
}

/// Appends `s[from..to]` to `out`.
pub(crate) fn push_range(out: &mut String, s: &Vec<char>, from: usize, to: usize)
    requires
        from <= to <= s@.len(),
    ensures
        final(out)@ == old(out)@ + s@.subrange(from as int, to as int),
{
    let mut k = from;
    while k < to
        invariant
            from <= k <= to,
            to <= s@.len(),
            out@ == old(out)@ + s@.subrange(from as int, k as int),
        decreases to - k,
    {
        push_char(out, s[k]);
        k = k + 1;
        assert(out@ =~= old(out)@ + s@.subrange(from as int, k as int));
    }
}

/// The first line of a message, trimmed; "no detail" when it is empty.
pub fn first_line(message: &str) -> (r: String)
    ensures
        r@ == first_line_of(message@),
{
    let s = chars_of(message);
    if s.len() == 0 {
        return String::from_str("no detail");
    }
    let mut k: usize = 0;
    proof {
        lemma_find_char_bounds(s@, '\n', 0);
    }
    while k < s.len() && s[k] != '\n'
        invariant
            k <= s@.len(),
            find_char(s@, '\n', k as int) == find_char(s@, '\n', 0),
        decreases s@.len() - k,
    {
        k = k + 1;
    }
    let end = if k < s.len() && k > 0 && s[k - 1] == '\r' {
        k - 1
    } else {
        k
    };
    let start = skip_space_at(&s, 0);
    let start = if start > end {
        end
    } else {
        start
    };
    proof {
        let line = s@.subrange(0, k as int);
        let body = if k < s@.len() && line.len() > 0 && line.last() == '\r' {
            line.drop_last()
        } else {
            line
        };
        assert(body =~= s@.subrange(0, end as int));
        lemma_skip_space_bounds(s@, 0);
        lemma_skip_space_bounds(body, 0);
        lemma_skip_space_prefix(s@, body, 0);
    }
    let stop = trim_end_at(&s, start, end);
    proof {
        let body = s@.subrange(0, end as int);
        lemma_trim_end_prefix(s@, body, start as int, end as int);
    }
    let mut out = String::new();
    push_range(&mut out, &s, start, stop);
    proof {
        let body = s@.subrange(0, end as int);
        assert(out@ =~= trim(body));
    }
    out
}

/// In a prefix, skipping white space stops where it stops in the whole
/// string, or at the prefix's end.
proof fn lemma_skip_space_prefix(s: Seq<char>, p: Seq<char>, i: int)
    requires
        p.len() <= s.len(),
        p =~= s.subrange(0, p.len() as int),
        0 <= i <= p.len(),
    ensures
        skip_space(p, i) == if skip_space(s, i) > p.len() { p.len() as int } else { skip_space(s, i) },
    decreases p.len() - i,
{
    lemma_skip_space_bounds(s, i);
    if i < p.len() {
        assert(p[i] == s[i]);
        if is_space(p[i]) {
            lemma_skip_space_prefix(s, p, i + 1);
        }
    }
}

/// Trimming the end of a prefix only reads the prefix.
proof fn lemma_trim_end_prefix(s: Seq<char>, p: Seq<char>, i: int, j: int)
    requires
        p.len() <= s.len(),
        p =~= s.subrange(0, p.len() as int),
        0 <= i <= j <= p.len(),
    ensures
        trim_end(p, i, j) == trim_end(s, i, j),
    decreases j - i,
{
    if j > i {
        lemma_trim_end_prefix(s, p, i, j - 1);
    }
}

impl PipelineCheck {
    pub open spec fn spec_metadata(&self) -> Seq<char> {
        match self {
            PipelineCheck::NotRun => "check=not-run"@,
            PipelineCheck::Passed(pass) => "check=pass original_steps="@ + a64_pretty::dec(pass.original_steps as nat)
                + " fragment_steps="@ + a64_pretty::dec(pass.fragment_steps as nat) + " encoded_bytes="@
                + a64_pretty::dec(pass.encoded_bytes as nat) + " halt="@ + pass.halt@,
            PipelineCheck::Failed { message } => "check=fail "@ + first_line_of(message@),
        }
    }

    /// One line that says how the check went.
    pub fn metadata(&self) -> (r: String)
        ensures
            r@ == self.spec_metadata(),
    {
        match self {
            PipelineCheck::NotRun => String::from_str("check=not-run"),
            PipelineCheck::Passed(pass) => {
                let mut s = String::from_str("check=pass original_steps=");
                push_dec(&mut s, pass.original_steps as u64);
                s.append(" fragment_steps=");
                push_dec(&mut s, pass.fragment_steps as u64);
                s.append(" encoded_bytes=");
                push_dec(&mut s, pass.encoded_bytes as u64);
                s.append(" halt=");
                s.append(pass.halt.as_str());
                assert(s@ =~= self.spec_metadata());
                s
            },
            PipelineCheck::Failed { message } => {
                let mut s = String::from_str("check=fail ");
                let line = first_line(message.as_str());
                s.append(line.as_str());
                assert(s@ =~= self.spec_metadata());
                s
            },
        }
    }

    pub open spec fn spec_initial_status(&self) -> Seq<char> {
        match self {
            PipelineCheck::Failed { message } => "pipeline check failed: "@ + first_line_of(message@),
            _ => "s step mode | Tab focus | p/t/r jump panels | Up/Down move or scroll"@,
        }
    }

    /// The status line the explorer opens with.
    pub fn initial_status(&self) -> (r: String)
        ensures
            r@ == self.spec_initial_status(),
    {
        match self {
            PipelineCheck::Failed { message } => {
                let mut s = String::from_str("pipeline check failed: ");
                let line = first_line(message.as_str());
                s.append(line.as_str());
                assert(s@ =~= self.spec_initial_status());
                s
            },
            _ => String::from_str("s step mode | Tab focus | p/t/r jump panels | Up/Down move or scroll"),
        }
    }
}


/// Why a number typed on the command line was refused.
#[derive(Clone, Copy, Debug, PartialEq, Eq, Structural)]
pub enum NumberError {
    Empty,
    InvalidDigit,
    PosOverflow,
    OutOfRange,
}

/// The message for a refused number, as the standard library words it.
pub open spec fn number_error_text(e: NumberError) -> Seq<char> {
    match e {
        NumberError::Empty => "cannot parse integer from empty string"@,
        NumberError::InvalidDigit => "invalid digit found in string"@,
        NumberError::PosOverflow => "number too large to fit in target type"@,
        NumberError::OutOfRange => "out of range integral type conversion attempted"@,
    }
}

fn number_error_string(e: NumberError) -> (r: String)
    ensures
        r@ == number_error_text(e),
{
    match e {
        NumberError::Empty => String::from_str("cannot parse integer from empty string"),
        NumberError::InvalidDigit => String::from_str("invalid digit found in string"),
        NumberError::PosOverflow => String::from_str("number too large to fit in target type"),
        NumberError::OutOfRange => String::from_str("out of range integral type conversion attempted"),
    }
}

/// The value of a digit in `radix`, as `char::to_digit` gives it.
pub open spec fn digit_value(c: char, radix: nat) -> Option<nat> {
    let d: int = if '0' <= c <= '9' {
        c as int - '0' as int
    } else if 'a' <= c <= 'z' {
        c as int - 'a' as int + 10
    } else if 'A' <= c <= 'Z' {
        c as int - 'A' as int + 10
    } else {
        99
    };
    if d < radix {
        Some(d as nat)
    } else {
        None
    }
}

/// The digits of `d` from `i` on, read onto `acc`: a digit outside the
/// radix is refused first, then a value past `u64::MAX`.
pub open spec fn parse_digits(d: Seq<char>, radix: nat, i: int, acc: nat) -> Result<u64, NumberError>
    decreases d.len() - i,
{
    if i >= d.len() || i < 0 {
        Ok(acc as u64)
    } else {
        match digit_value(d[i], radix) {
            None => Err(NumberError::InvalidDigit),
            Some(x) => if acc * radix + x > u64::MAX {
                Err(NumberError::PosOverflow)
            } else {
                parse_digits(d, radix, i + 1, acc * radix + x)
            },
        }
    }
}

/// An unsigned number in `radix`, as `u64::from_str_radix` reads it: an
/// optional `+`, then at least one digit.
pub open spec fn parse_radix(s: Seq<char>, radix: nat) -> Result<u64, NumberError> {
    if s.len() == 0 {
        Err(NumberError::Empty)
    } else if s.len() == 1 && (s[0] == '+' || s[0] == '-') {
        Err(NumberError::InvalidDigit)
    } else if s[0] == '+' {
        parse_digits(s, radix, 1, 0)
    } else {
        parse_digits(s, radix, 0, 0)
    }
}

/// A number typed on the command line: hexadecimal after `0x` or `0X`,
/// decimal otherwise.
pub open spec fn parse_number(s: Seq<char>) -> Result<u64, NumberError> {
    if s.len() >= 2 && s[0] == '0' && (s[1] == 'x' || s[1] == 'X') {
        parse_radix(s.subrange(2, s.len() as int), 16)
    } else {
        parse_radix(s, 10)
    }
}

/// A number as typed: hexadecimal after `0x` or `0X`, decimal otherwise.
pub fn parse_number_text(text: &str) -> (r: Result<u64, NumberError>)
    ensures
        r == parse_number(text@),
{
    let s = chars_of(text);
    assert(s@.subrange(0, s@.len() as int) =~= s@);
    parse_number_range(&s, 0, s.len())
}

/// The message for a refused number.
pub fn number_error_message(e: NumberError) -> (r: String)
    ensures
        r@ == number_error_text(e),
{
    number_error_string(e)
}

fn digit_of(c: char, radix: u64) -> (r: Option<u64>)
    requires
        radix <= 36,
    ensures
        match digit_value(c, radix as nat) {
            Some(x) => r == Some(x as u64),
            None => r is None,
        },
{
    let d: u64 = if '0' <= c && c <= '9' {
        (c as u32 - '0' as u32) as u64
    } else if 'a' <= c && c <= 'z' {
        (c as u32 - 'a' as u32 + 10) as u64
    } else if 'A' <= c && c <= 'Z' {
        (c as u32 - 'A' as u32 + 10) as u64
    } else {
        99
    };
    if d < radix {
        Some(d)
    } else {
        None
    }
}

fn parse_radix_range(s: &Vec<char>, from: usize, to: usize, radix: u64) -> (r: Result<u64, NumberError>)
    requires
        from <= to <= s@.len(),
        2 <= radix <= 36,
    ensures
        r == parse_radix(s@.subrange(from as int, to as int), radix as nat),
{
    let ghost t = s@.subrange(from as int, to as int);
    if from == to {
        return Err(NumberError::Empty);
    }
    if to - from == 1 && (s[from] == '+' || s[from] == '-') {
        return Err(NumberError::InvalidDigit);
    }
    let mut k = if s[from] == '+' {
        from + 1
    } else {
        from
    };
    let ghost k0 = (k - from) as int;
    assert(t[0] == s@[from as int]);
    let mut acc: u64 = 0;
    while k < to
        invariant
            from <= k <= to,
            to <= s@.len(),
            2 <= radix <= 36,
            t == s@.subrange(from as int, to as int),
            parse_radix(t, radix as nat) == parse_digits(t, radix as nat, k0, 0),
            parse_digits(t, radix as nat, (k - from) as int, acc as nat) == parse_digits(t, radix as nat, k0, 0),
        decreases to - k,
    {
        let c = s[k];
        assert(t[(k - from) as int] == c);
        match digit_of(c, radix) {
            None => {
                return Err(NumberError::InvalidDigit);
            },
            Some(x) => {
                assert((acc as u128) * (radix as u128) <= 0xffff_ffff_ffff_ffffu128 * 36u128) by (nonlinear_arith)
                    requires
                        radix <= 36,
                ;
                let wide = (acc as u128) * (radix as u128) + (x as u128);
                if wide > 0xffff_ffff_ffff_ffffu128 {
                    return Err(NumberError::PosOverflow);
                }
                acc = wide as u64;
            },
        }
        k = k + 1;
    }
    Ok(acc)
}

fn parse_number_range(s: &Vec<char>, from: usize, to: usize) -> (r: Result<u64, NumberError>)
    requires
        from <= to <= s@.len(),
    ensures
        r == parse_number(s@.subrange(from as int, to as int)),
{
    let ghost t = s@.subrange(from as int, to as int);
    if to - from >= 2 && s[from] == '0' && (s[from + 1] == 'x' || s[from + 1] == 'X') {
        assert(t.subrange(2, t.len() as int) =~= s@.subrange(from + 2, to as int));
        parse_radix_range(s, from + 2, to, 16)
    } else {
        parse_radix_range(s, from, to, 10)
    }
}

/// Whether `s[from..to]` is the text `lit`.
fn range_is(s: &Vec<char>, from: usize, to: usize, lit: &str) -> (r: bool)
    requires
        from <= to <= s@.len(),
    ensures
        r == (s@.subrange(from as int, to as int) == lit@),
{
    let n = lit.unicode_len();
    if to - from != n {
        return false;
    }
    let mut k: usize = 0;
    while k < n
        invariant
            k <= n,
            n == lit@.len(),
            to - from == n,
            from <= to <= s@.len(),
            forall|m: int| 0 <= m < k ==> s@[from + m] == lit@[m],
        decreases n - k,
    {
        if s[from + k] != lit.get_char(k) {
            assert(s@.subrange(from as int, to as int)[k as int] != lit@[k as int]);
            return false;
        }
        k = k + 1;
    }
    assert(s@.subrange(from as int, to as int) =~= lit@);
    true
}

/// One entry of the pc index: an original pc and whether the control-flow
/// graph holds it.
#[derive(Clone, Copy, Debug, PartialEq, Eq, Structural)]
pub struct ExplorerPc {
    pub pc: u64,
    pub in_cfg: bool,
}

/// One instruction of the laid-out fragment: its offset and the original pc
/// it stands for.
#[derive(Clone, Copy, Debug, PartialEq, Eq, Structural)]
pub struct ExplorerOffset {
    pub offset: usize,
    pub ori_pc: Option<u64>,
}

/// Outside work a key asks of the front end, which reports back through the
/// matching `finish_` method.
#[derive(Clone, Copy, Debug, PartialEq, Eq, Structural)]
pub enum ExplorerEffect {
    Nothing,
    ExportPanel,
    EnterStepMode,
    LeaveStepMode,
    StepGroup,
    StepTranslated,
    ResetStepMode,
    /// Copy the focused panel's text, as an export does.
    CopyPanel,
}

/// The explorer's state as a value.
pub struct ExplorerView {
    pub pcs: Seq<ExplorerPc>,
    pub offsets: Seq<ExplorerOffset>,
    pub mode: Mode,
    pub selection: Selection,
    pub step_detail: StepDetailMode,
    pub command: Seq<char>,
    pub command_mode: bool,
    pub show_raw_only: bool,
    pub focus: FocusPanel,
    pub raw_scroll: u16,
    pub rephrase_scroll: u16,
    pub layout_scroll: u16,
    pub status: Seq<char>,
    pub effect: ExplorerEffect,
}

/// The original pc of the first fragment instruction at offset `o`.
pub open spec fn offset_origin(offs: Seq<ExplorerOffset>, o: usize, i: int) -> Option<u64>
    decreases offs.len() - i,
{
    if i >= offs.len() || i < 0 {
        None
    } else if offs[i].offset == o {
        offs[i].ori_pc
    } else {
        offset_origin(offs, o, i + 1)
    }
}

/// The pc the selection stands for.
pub open spec fn selected_pc_of(v: ExplorerView) -> Option<u64> {
    match v.selection {
        Selection::Pc(pc) => Some(pc),
        Selection::Offset(o) => offset_origin(v.offsets, o, 0),
    }
}

/// The pcs of the index that are listed: all of them, or those of the
/// control-flow graph.
pub open spec fn listed_pcs(pcs: Seq<ExplorerPc>, all: bool) -> Seq<u64>
    decreases pcs.len(),
{
    if pcs.len() == 0 {
        seq![]
    } else {
        let rest = listed_pcs(pcs.drop_last(), all);
        if all || pcs.last().in_cfg {
            rest.push(pcs.last().pc)
        } else {
            rest
        }
    }
}

pub open spec fn index_of_pc(s: Seq<u64>, x: u64, i: int) -> Option<int>
    decreases s.len() - i,
{
    if i >= s.len() || i < 0 {
        None
    } else if s[i] == x {
        Some(i)
    } else {
        index_of_pc(s, x, i + 1)
    }
}

pub open spec fn first_above(s: Seq<u64>, x: u64, i: int) -> Option<int>
    decreases s.len() - i,
{
    if i >= s.len() || i < 0 {
        None
    } else if s[i] > x {
        Some(i)
    } else {
        first_above(s, x, i + 1)
    }
}

pub open spec fn last_below(s: Seq<u64>, x: u64, j: int) -> Option<int>
    decreases j,
{
    if j <= 0 || j > s.len() {
        None
    } else if s[j - 1] < x {
        Some(j - 1)
    } else {
        last_below(s, x, j - 1)
    }
}

/// `i + delta` as `usize::checked_add_signed` gives it.
pub open spec fn step_index(i: int, delta: int) -> Option<int> {
    if 0 <= i + delta <= usize::MAX {
        Some(i + delta)
    } else {
        None
    }
}

pub open spec fn pc_at(s: Seq<u64>, n: Option<int>) -> Option<u64> {
    match n {
        Some(k) => if 0 <= k < s.len() {
            Some(s[k])
        } else {
            None
        },
        None => None,
    }
}

/// The pc `delta` entries from the selected one in the whole index.
pub open spec fn spec_next_pc(v: ExplorerView, delta: int) -> Option<u64> {
    match selected_pc_of(v) {
        None => None,
        Some(cur) => {
            let all = listed_pcs(v.pcs, true);
            match index_of_pc(all, cur, 0) {
                None => None,
                Some(i) => pc_at(all, step_index(i, delta)),
            }
        },
    }
}

/// The listed pc `delta` entries from the selected one; from a pc that is
/// not listed, the nearest listed pc in the direction of `delta`.
pub open spec fn spec_next_visible_pc(v: ExplorerView, delta: int) -> Option<u64> {
    match selected_pc_of(v) {
        None => None,
        Some(cur) => {
            let vis = listed_pcs(v.pcs, v.show_raw_only);
            let n = match index_of_pc(vis, cur, 0) {
                Some(i) => step_index(i, delta),
                None => if delta >= 0 {
                    first_above(vis, cur, 0)
                } else {
                    last_below(vis, cur, vis.len() as int)
                },
            };
            pc_at(vis, n)
        },
    }
}

pub open spec fn with_status(v: ExplorerView, s: Seq<char>) -> ExplorerView {
    ExplorerView { status: s, ..v }
}

pub open spec fn with_effect(v: ExplorerView, e: ExplorerEffect) -> ExplorerView {
    ExplorerView { effect: e, ..v }
}

/// A new selection starts every panel at the top.
pub open spec fn selected(v: ExplorerView, sel: Selection) -> ExplorerView {
    ExplorerView { selection: sel, raw_scroll: 0, rephrase_scroll: 0, layout_scroll: 0, ..v }
}

pub open spec fn spec_select_next_pc(v: ExplorerView, delta: int) -> ExplorerView {
    match spec_next_visible_pc(v, delta) {
        Some(pc) => with_status(selected(v, Selection::Pc(pc)), "selected pc "@ + a64_pretty::hex0x(pc as nat)),
        None => with_status(v, "no PC in that direction"@),
    }
}

/// A scroll position moved by `delta`, saturating at both ends.
pub open spec fn shifted(x: u16, delta: int) -> u16 {
    if x + delta < 0 {
        0
    } else if x + delta > u16::MAX {
        u16::MAX
    } else {
        (x + delta) as u16
    }
}

pub open spec fn spec_scroll_focus(v: ExplorerView, delta: int) -> ExplorerView {
    match v.focus {
        FocusPanel::Cfg => spec_select_next_pc(
            v,
            if delta >= 0 {
                1
            } else {
                -1
            },
        ),
        FocusPanel::Rephrase => {
            let n = shifted(v.rephrase_scroll, delta);
            ExplorerView {
                rephrase_scroll: n,
                status: spec_focus_name(v.focus)@ + " scroll="@ + a64_pretty::dec(n as nat),
                ..v
            }
        },
        FocusPanel::Layout => {
            let n = shifted(v.layout_scroll, delta);
            ExplorerView {
                layout_scroll: n,
                status: spec_focus_name(v.focus)@ + " scroll="@ + a64_pretty::dec(n as nat),
                ..v
            }
        },
    }
}

pub open spec fn spec_scroll_step_detail(v: ExplorerView, delta: int) -> ExplorerView {
    let n = shifted(v.layout_scroll, delta);
    ExplorerView {
        layout_scroll: n,
        status: spec_step_detail_name(v.step_detail)@ + " scroll="@ + a64_pretty::dec(n as nat),
        ..v
    }
}

pub open spec fn spec_set_focus(v: ExplorerView, f: FocusPanel) -> ExplorerView {
    ExplorerView { focus: f, status: "focused "@ + spec_focus_name(f)@, ..v }
}

pub open spec fn spec_toggle_detail(v: ExplorerView, d: StepDetailMode) -> ExplorerView {
    let nd = if v.step_detail == d {
        StepDetailMode::Compact
    } else {
        d
    };
    ExplorerView { step_detail: nd, layout_scroll: 0, status: "comparison="@ + spec_step_detail_name(nd)@, ..v }
}

pub open spec fn spec_help_status(m: Mode) -> Seq<char> {
    match m {
        Mode::Explore => "Explore: s step | p/t/r panels | y export panel | Up/Down move or scroll"@,
        Mode::ActiveStep => "Step: Esc/s explore | Space group | j insn | r/m/c panes | y export | R reset"@,
    }
}

/// A selection as `{:?}` writes it.
pub open spec fn selection_text(sel: Selection) -> Seq<char> {
    match sel {
        Selection::Pc(pc) => "Pc("@ + a64_pretty::dec(pc as nat) + ")"@,
        Selection::Offset(o) => "Offset("@ + a64_pretty::dec(o as nat) + ")"@,
    }
}

/// A command line, read.
pub enum ParsedCommand {
    Select(Selection),
    Help,
    Quit,
    Invalid(Seq<char>),
}

/// The command a line holds: its first word names it, the second is its
/// argument; an empty line keeps the current selection.
pub open spec fn spec_parse_command(v: ExplorerView, line: Seq<char>) -> ParsedCommand {
    let a = skip_space(line, 0);
    if a >= line.len() {
        ParsedCommand::Select(v.selection)
    } else {
        let e = token_end(line, a);
        let t = line.subrange(a, e);
        let b = skip_space(line, e);
        let arg = if b >= line.len() {
            None
        } else {
            Some(line.subrange(b, token_end(line, b)))
        };
        if t == "q"@ || t == "quit"@ {
            ParsedCommand::Quit
        } else if t == "h"@ || t == "help"@ || t == "?"@ {
            ParsedCommand::Help
        } else if t == "pc"@ {
            match arg {
                None => ParsedCommand::Invalid("usage: pc <addr>"@),
                Some(w) => match parse_number(w) {
                    Ok(n) => ParsedCommand::Select(Selection::Pc(n)),
                    Err(err) => ParsedCommand::Invalid(number_error_text(err)),
                },
            }
        } else if t == "off"@ || t == "offset"@ {
            match arg {
                None => ParsedCommand::Invalid("usage: off <fragment-offset>"@),
                Some(w) => match parse_number(w) {
                    Ok(n) => if n > usize::MAX {
                        ParsedCommand::Invalid(number_error_text(NumberError::OutOfRange))
                    } else {
                        ParsedCommand::Select(Selection::Offset(n as usize))
                    },
                    Err(err) => ParsedCommand::Invalid(number_error_text(err)),
                },
            }
        } else if t == "n"@ || t == "next"@ {
            match spec_next_pc(v, 1) {
                Some(pc) => ParsedCommand::Select(Selection::Pc(pc)),
                None => ParsedCommand::Invalid("no next PC"@),
            }
        } else if t == "p"@ || t == "prev"@ {
            match spec_next_pc(v, -1) {
                Some(pc) => ParsedCommand::Select(Selection::Pc(pc)),
                None => ParsedCommand::Invalid("no previous PC"@),
            }
        } else {
            ParsedCommand::Invalid("unknown command `"@ + t + "`"@)
        }
    }
}

/// What a command does.
pub open spec fn spec_apply_command(v: ExplorerView, line: Seq<char>) -> (ExplorerView, Control) {
    match spec_parse_command(v, line) {
        ParsedCommand::Select(next) => (
            with_status(
                selected(v, next),
                if v.mode == Mode::ActiveStep {
                    "selection updated; active step session remains at its live cursor"@
                } else {
                    "selected "@ + selection_text(next)
                },
            ),
            Control::Continue,
        ),
        ParsedCommand::Help => (
            with_status(v, "commands: :pc <addr>, :off <offset>, :q; keys: Tab, p/t/r, Up/Down"@),
            Control::Continue,
        ),
        ParsedCommand::Quit => (v, Control::Quit),
        ParsedCommand::Invalid(m) => (with_status(v, m), Control::Continue),
    }
}

/// A key while a command is being typed.
pub open spec fn spec_command_key(v: ExplorerView, key: ExplorerKey) -> (ExplorerView, Control) {
    match key {
        ExplorerKey::Esc => (
            ExplorerView { command: seq![], command_mode: false, status: "command cancelled"@, ..v },
            Control::Continue,
        ),
        ExplorerKey::Enter => spec_apply_command(ExplorerView { command: seq![], command_mode: false, ..v }, v.command),
        ExplorerKey::Backspace => (
            ExplorerView {
                command: if v.command.len() > 0 {
                    v.command.drop_last()
                } else {
                    v.command
                },
                ..v
            },
            Control::Continue,
        ),
        ExplorerKey::Char(c) => (ExplorerView { command: v.command.push(c), ..v }, Control::Continue),
        _ => (v, Control::Continue),
    }
}

/// What a key does: the new state, with the outside work it asks for, and
/// whether the explorer goes on.
pub open spec fn spec_handle_key(v0: ExplorerView, key: ExplorerKey) -> (ExplorerView, Control) {
    let v = with_effect(v0, ExplorerEffect::Nothing);
    let step = v.mode == Mode::ActiveStep;
    if v.command_mode {
        spec_command_key(v, key)
    } else {
        match key {
            ExplorerKey::Char('q') => (v, Control::Quit),
            ExplorerKey::Esc if step => (with_effect(v, ExplorerEffect::LeaveStepMode), Control::Continue),
            ExplorerKey::Char(':') => (
                ExplorerView { command: seq![], command_mode: true, status: "enter command"@, ..v },
                Control::Continue,
            ),
            ExplorerKey::Char('y') => (with_effect(v, ExplorerEffect::ExportPanel), Control::Continue),
            ExplorerKey::Char('s') => (
                with_effect(
                    v,
                    if step {
                        ExplorerEffect::LeaveStepMode
                    } else {
                        ExplorerEffect::EnterStepMode
                    },
                ),
                Control::Continue,
            ),
            ExplorerKey::Char(' ') if step => (with_effect(v, ExplorerEffect::StepGroup), Control::Continue),
            ExplorerKey::Char('j') if step => (with_effect(v, ExplorerEffect::StepTranslated), Control::Continue),
            ExplorerKey::Down if step => (
                if v.step_detail == StepDetailMode::Compact {
                    with_status(v, "Down is disabled in compact mode; use j for one instruction"@)
                } else {
                    spec_scroll_step_detail(v, 1)
                },
                Control::Continue,
            ),
            ExplorerKey::Char('r') if step => (spec_toggle_detail(v, StepDetailMode::Registers), Control::Continue),
            ExplorerKey::Char('m') if step => (spec_toggle_detail(v, StepDetailMode::Memory), Control::Continue),
            ExplorerKey::Char('c') if step => (
                ExplorerView { step_detail: StepDetailMode::Compact, status: "comparison=compact"@, ..v },
                Control::Continue,
            ),
            ExplorerKey::Char('R') if step => (with_effect(v, ExplorerEffect::ResetStepMode), Control::Continue),
            ExplorerKey::Up if step => (
                if v.step_detail == StepDetailMode::Compact {
                    with_status(v, "reverse execution is not supported; use R to reset"@)
                } else {
                    spec_scroll_step_detail(v, -1)
                },
                Control::Continue,
            ),
            ExplorerKey::Tab => (spec_set_focus(v, spec_focus_next(v.focus)), Control::Continue),
            ExplorerKey::BackTab => (spec_set_focus(v, spec_focus_prev(v.focus)), Control::Continue),
            ExplorerKey::Char('p') => (spec_set_focus(v, FocusPanel::Cfg), Control::Continue),
            ExplorerKey::Char('t') => (spec_set_focus(v, FocusPanel::Rephrase), Control::Continue),
            ExplorerKey::Char('r') => (spec_set_focus(v, FocusPanel::Layout), Control::Continue),
            ExplorerKey::Char('n') if !step => (spec_select_next_pc(v, 1), Control::Continue),
            ExplorerKey::Right if !step => (spec_select_next_pc(v, 1), Control::Continue),
            ExplorerKey::Left if !step => (spec_select_next_pc(v, -1), Control::Continue),
            ExplorerKey::Down => (
                if v.focus == FocusPanel::Cfg {
                    spec_select_next_pc(v, 1)
                } else {
                    spec_scroll_focus(v, 1)
                },
                Control::Continue,
            ),
            ExplorerKey::Up => (
                if v.focus == FocusPanel::Cfg {
                    spec_select_next_pc(v, -1)
                } else {
                    spec_scroll_focus(v, -1)
                },
                Control::Continue,
            ),
            ExplorerKey::PageDown | ExplorerKey::Char('d') => (
                if step {
                    spec_scroll_step_detail(v, 5)
                } else {
                    spec_scroll_focus(v, 5)
                },
                Control::Continue,
            ),
            ExplorerKey::PageUp | ExplorerKey::Char('u') => (
                if step {
                    spec_scroll_step_detail(v, -5)
                } else {
                    spec_scroll_focus(v, -5)
                },
                Control::Continue,
            ),
            ExplorerKey::Char('a') => (
                ExplorerView {
                    show_raw_only: !v.show_raw_only,
                    status: if !v.show_raw_only {
                        "Program view=all"@
                    } else {
                        "Program view=cfg"@
                    },
                    ..v
                },
                Control::Continue,
            ),
            ExplorerKey::Char('?') | ExplorerKey::F1 => (with_status(v, spec_help_status(v.mode)), Control::Continue),
            _ => (v, Control::Continue),
        }
    }
}


/// A command line, read, with the message of a refused one.
enum Command {
    Select(Selection),
    Help,
    Quit,
    Invalid(String),
}

spec fn command_is(c: Command, p: ParsedCommand) -> bool {
    match (c, p) {
        (Command::Select(a), ParsedCommand::Select(b)) => a == b,
        (Command::Help, ParsedCommand::Help) => true,
        (Command::Quit, ParsedCommand::Quit) => true,
        (Command::Invalid(m), ParsedCommand::Invalid(n)) => m@ == n,
        _ => false,
    }
}

/// The focus a click in a panel moves to.
pub open spec fn panel_focus(p: MousePanel) -> FocusPanel {
    match p {
        MousePanel::Program => FocusPanel::Cfg,
        MousePanel::Translation => FocusPanel::Rephrase,
        _ => FocusPanel::Layout,
    }
}

/// The row of a panel's whole text that row `row` of its window shows.
pub open spec fn spec_absolute_row(v: ExplorerView, p: MousePanel, row: int) -> int {
    match p {
        MousePanel::Program | MousePanel::ActiveOriginal => v.raw_scroll + row,
        MousePanel::Translation | MousePanel::ActiveTranslated => v.rephrase_scroll + row,
        MousePanel::Result | MousePanel::ActiveComparison => v.layout_scroll + row,
        _ => row,
    }
}

/// A wheel over a panel: the explorer's panels scroll as the focused one
/// does (the translation and result panels taking the focus first); the
/// stepping view's listings scroll themselves, its comparison scrolls as
/// the step detail does, and its state summaries do not scroll.
pub open spec fn spec_scroll_panel(v: ExplorerView, p: MousePanel, delta: int) -> ExplorerView {
    match p {
        MousePanel::Program => spec_scroll_focus(v, delta),
        MousePanel::Translation => spec_scroll_focus(ExplorerView { focus: FocusPanel::Rephrase, ..v }, delta),
        MousePanel::Result => spec_scroll_focus(ExplorerView { focus: FocusPanel::Layout, ..v }, delta),
        MousePanel::ActiveOriginal => {
            let n = shifted(v.raw_scroll, delta);
            ExplorerView { raw_scroll: n, status: "Program scroll="@ + a64_pretty::dec(n as nat), ..v }
        },
        MousePanel::ActiveTranslated => {
            let n = shifted(v.rephrase_scroll, delta);
            ExplorerView { rephrase_scroll: n, status: "Translation scroll="@ + a64_pretty::dec(n as nat), ..v }
        },
        MousePanel::ActiveComparison => spec_scroll_step_detail(v, delta),
        _ => with_status(v, "state summaries do not scroll"@),
    }
}

/// A click on a row of a panel: in the program panel the pc listed on that
/// row is selected; the focus moves to the panel.
pub open spec fn spec_select_row(v: ExplorerView, p: MousePanel, abs: int) -> ExplorerView {
    let listed = listed_pcs(v.pcs, v.show_raw_only);
    let w = if p == MousePanel::Program && 0 <= abs < listed.len() {
        selected(v, Selection::Pc(listed[abs]))
    } else {
        v
    };
    spec_set_focus(w, panel_focus(p))
}

/// What a mouse action does to the explorer and to the selection in
/// progress; a release also asks for the panel to be copied.
pub open spec fn spec_handle_mouse(v0: ExplorerView, t: MouseTracker, a: MouseAction) -> (ExplorerView, MouseTracker) {
    let v = with_effect(v0, ExplorerEffect::Nothing);
    match a {
        MouseAction::Scroll { panel, delta } => (spec_scroll_panel(v, panel, delta as int), t),
        MouseAction::Press { panel, row } => {
            let abs = spec_absolute_row(v, panel, row as int);
            (spec_select_row(v, panel, abs), mouse::anchored(panel, abs as usize))
        },
        MouseAction::Drag { panel, row } => {
            let abs = spec_absolute_row(v, panel, row as int);
            (spec_select_row(v, panel, abs), mouse::extended(t, panel, abs as usize))
        },
        MouseAction::Release { panel, row } => {
            let abs = spec_absolute_row(v, panel, row as int);
            (with_effect(spec_select_row(v, panel, abs), ExplorerEffect::CopyPanel), mouse::extended(t, panel, abs as usize))
        },
        MouseAction::ClearSelection => (v, MouseTracker { anchor: None, selection: None }),
        MouseAction::Nothing => (v, t),
    }
}

fn focus_for_panel(p: MousePanel) -> (r: FocusPanel)
    ensures
        r == panel_focus(p),
{
    match p {
        MousePanel::Program => FocusPanel::Cfg,
        MousePanel::Translation => FocusPanel::Rephrase,
        _ => FocusPanel::Layout,
    }
}

/// A row of a mouse action lies above the row the mouse is on.
proof fn lemma_action_row_below(l: mouse::OpenTuiLayout, x: usize, y: usize, kind: MouseKind)
    ensures
        match mouse::spec_mouse_action(l, x, y, kind) {
            MouseAction::Press { row, .. } | MouseAction::Drag { row, .. } | MouseAction::Release { row, .. } => row <= y,
            _ => true,
        },
{
}

pub open spec fn opt_index(r: Option<usize>) -> Option<int> {
    match r {
        Some(u) => Some(u as int),
        None => None,
    }
}

fn index_of(s: &Vec<u64>, x: u64) -> (r: Option<usize>)
    ensures
        opt_index(r) == index_of_pc(s@, x, 0),
{
    let mut i: usize = 0;
    while i < s.len()
        invariant
            i <= s@.len(),
            index_of_pc(s@, x, i as int) == index_of_pc(s@, x, 0),
        decreases s@.len() - i,
    {
        if s[i] == x {
            return Some(i);
        }
        i = i + 1;
    }
    None
}

fn index_above(s: &Vec<u64>, x: u64) -> (r: Option<usize>)
    ensures
        opt_index(r) == first_above(s@, x, 0),
{
    let mut i: usize = 0;
    while i < s.len()
        invariant
            i <= s@.len(),
            first_above(s@, x, i as int) == first_above(s@, x, 0),
        decreases s@.len() - i,
    {
        if s[i] > x {
            return Some(i);
        }
        i = i + 1;
    }
    None
}

fn index_below(s: &Vec<u64>, x: u64) -> (r: Option<usize>)
    ensures
        opt_index(r) == last_below(s@, x, s@.len() as int),
{
    let mut j: usize = s.len();
    while j > 0
        invariant
            j <= s@.len(),
            last_below(s@, x, j as int) == last_below(s@, x, s@.len() as int),
        decreases j,
    {
        if s[j - 1] < x {
            return Some(j - 1);
        }
        j = j - 1;
    }
    None
}

fn step_from(i: usize, delta: isize) -> (r: Option<usize>)
    ensures
        opt_index(r) == step_index(i as int, delta as int),
{
    if delta >= 0 {
        i.checked_add(delta as usize)
    } else {
        let mag: usize = if delta == isize::MIN {
            (isize::MAX as usize) + 1
        } else {
            (-delta) as usize
        };
        i.checked_sub(mag)
    }
}

fn pc_at_index(s: &Vec<u64>, n: Option<usize>) -> (r: Option<u64>)
    ensures
        r == pc_at(s@, opt_index(n)),
{
    match n {
        Some(k) => if k < s.len() {
            Some(s[k])
        } else {
            None
        },
        None => None,
    }
}

fn shift(x: u16, delta: i16) -> (r: u16)
    ensures
        r == shifted(x, delta as int),
{
    let y: i32 = x as i32 + delta as i32;
    if y < 0 {
        0
    } else if y > 65535 {
        65535
    } else {
        y as u16
    }
}

/// The explorer: the index it navigates, and what the user has selected,
/// focused, scrolled and typed.
pub struct ExplorerState {
    pcs: Vec<ExplorerPc>,
    offsets: Vec<ExplorerOffset>,
    check: PipelineCheck,
    mode: Mode,
    selection: Selection,
    step_detail: StepDetailMode,
    command: Vec<char>,
    command_mode: bool,
    show_raw_only: bool,
    focus: FocusPanel,
    raw_scroll: u16,
    rephrase_scroll: u16,
    layout_scroll: u16,
    status: String,
    effect: ExplorerEffect,
}

impl View for ExplorerState {
    type V = ExplorerView;

    closed spec fn view(&self) -> ExplorerView {
        ExplorerView {
            pcs: self.pcs@,
            offsets: self.offsets@,
            mode: self.mode,
            selection: self.selection,
            step_detail: self.step_detail,
            command: self.command@,
            command_mode: self.command_mode,
            show_raw_only: self.show_raw_only,
            focus: self.focus,
            raw_scroll: self.raw_scroll,
            rephrase_scroll: self.rephrase_scroll,
            layout_scroll: self.layout_scroll,
            status: self.status@,
            effect: self.effect,
        }
    }
}

impl ExplorerState {
    pub closed spec fn spec_check(&self) -> PipelineCheck {
        self.check
    }

    /// An explorer over a pc index and a fragment index, with `entry_pc`
    /// selected, the program panel focused, and the check's status.
    pub fn new(pcs: Vec<ExplorerPc>, offsets: Vec<ExplorerOffset>, entry_pc: u64, check: PipelineCheck) -> (r: Self)
        ensures
            r@ == (ExplorerView {
                pcs: pcs@,
                offsets: offsets@,
                mode: Mode::Explore,
                selection: Selection::Pc(entry_pc),
                step_detail: StepDetailMode::Compact,
                command: seq![],
                command_mode: false,
                show_raw_only: false,
                focus: FocusPanel::Cfg,
                raw_scroll: 0,
                rephrase_scroll: 0,
                layout_scroll: 0,
                status: check.spec_initial_status(),
                effect: ExplorerEffect::Nothing,
            }),
            r.spec_check() == check,
    {
        let status = check.initial_status();
        ExplorerState {
            pcs,
            offsets,
            check,
            mode: Mode::Explore,
            selection: Selection::Pc(entry_pc),
            step_detail: StepDetailMode::Compact,
            command: Vec::new(),
            command_mode: false,
            show_raw_only: false,
            focus: FocusPanel::Cfg,
            raw_scroll: 0,
            rephrase_scroll: 0,
            layout_scroll: 0,
            status,
            effect: ExplorerEffect::Nothing,
        }
    }

    pub fn mode(&self) -> (r: Mode)
        ensures
            r == self@.mode,
    {
        self.mode
    }

    pub fn selection(&self) -> (r: Selection)
        ensures
            r == self@.selection,
    {
        self.selection
    }

    pub fn focus(&self) -> (r: FocusPanel)
        ensures
            r == self@.focus,
    {
        self.focus
    }

    pub fn step_detail(&self) -> (r: StepDetailMode)
        ensures
            r == self@.step_detail,
    {
        self.step_detail
    }

    pub fn status(&self) -> (r: &str)
        ensures
            r@ == self@.status,
    {
        self.status.as_str()
    }

    pub fn check(&self) -> (r: &PipelineCheck)
        ensures
            *r == self.spec_check(),
    {
        &self.check
    }

    /// The outside work the last key asked for.
    pub fn effect(&self) -> (r: ExplorerEffect)
        ensures
            r == self@.effect,
    {
        self.effect
    }

    pub fn command_mode(&self) -> (r: bool)
        ensures
            r == self@.command_mode,
    {
        self.command_mode
    }

    pub fn show_raw_only(&self) -> (r: bool)
        ensures
            r == self@.show_raw_only,
    {
        self.show_raw_only
    }

    /// The scroll positions of the program, translation and result panels.
    pub fn scrolls(&self) -> (r: (u16, u16, u16))
        ensures
            r == (self@.raw_scroll, self@.rephrase_scroll, self@.layout_scroll),
    {
        (self.raw_scroll, self.rephrase_scroll, self.layout_scroll)
    }

    /// The command typed so far.
    pub fn command_text(&self) -> (r: String)
        ensures
            r@ == self@.command,
    {
        let mut s = String::new();
        push_range(&mut s, &self.command, 0, self.command.len());
        assert(self.command@.subrange(0, self.command@.len() as int) =~= self.command@);
        s
    }

    fn offset_origin_of(&self, o: usize) -> (r: Option<u64>)
        ensures
            r == offset_origin(self.offsets@, o, 0),
    {
        let mut i: usize = 0;
        while i < self.offsets.len()
            invariant
                i <= self.offsets@.len(),
                offset_origin(self.offsets@, o, i as int) == offset_origin(self.offsets@, o, 0),
            decreases self.offsets@.len() - i,
        {
            if self.offsets[i].offset == o {
                return self.offsets[i].ori_pc;
            }
            i = i + 1;
        }
        None
    }

    /// The pc the selection stands for.
    pub fn selected_pc(&self) -> (r: Option<u64>)
        ensures
            r == selected_pc_of(self@),
    {
        match self.selection {
            Selection::Pc(pc) => Some(pc),
            Selection::Offset(o) => self.offset_origin_of(o),
        }
    }

    fn listed(&self, all: bool) -> (r: Vec<u64>)
        ensures
            r@ == listed_pcs(self.pcs@, all),
    {
        let mut r: Vec<u64> = Vec::new();
        let mut i: usize = 0;
        while i < self.pcs.len()
            invariant
                i <= self.pcs@.len(),
                r@ == listed_pcs(self.pcs@.take(i as int), all),
            decreases self.pcs@.len() - i,
        {
            let e = self.pcs[i];
            assert(self.pcs@.take(i + 1).drop_last() =~= self.pcs@.take(i as int));
            if all || e.in_cfg {
                r.push(e.pc);
            }
            i = i + 1;
        }
        assert(self.pcs@.take(i as int) =~= self.pcs@);
        r
    }

    /// The pcs the program panel lists: those of the control-flow graph, or
    /// every pc of the index when all are shown.
    pub fn visible_pc_entries(&self) -> (r: Vec<u64>)
        ensures
            r@ == listed_pcs(self@.pcs, self@.show_raw_only),
    {
        self.listed(self.show_raw_only)
    }

    /// The pc `delta` entries from the selected one in the whole index.
    pub fn next_pc(&self, delta: isize) -> (r: Option<u64>)
        ensures
            r == spec_next_pc(self@, delta as int),
    {
        let cur = match self.selected_pc() {
            Some(pc) => pc,
            None => {
                return None;
            },
        };
        let all = self.listed(true);
        match index_of(&all, cur) {
            None => None,
            Some(i) => pc_at_index(&all, step_from(i, delta)),
        }
    }

    /// The listed pc `delta` entries from the selected one; from a pc that
    /// is not listed, the nearest listed one in that direction.
    pub fn next_visible_pc(&self, delta: isize) -> (r: Option<u64>)
        ensures
            r == spec_next_visible_pc(self@, delta as int),
    {
        let cur = match self.selected_pc() {
            Some(pc) => pc,
            None => {
                return None;
            },
        };
        let vis = self.listed(self.show_raw_only);
        let n = match index_of(&vis, cur) {
            Some(i) => step_from(i, delta),
            None => if delta >= 0 {
                index_above(&vis, cur)
            } else {
                index_below(&vis, cur)
            },
        };
        pc_at_index(&vis, n)
    }

    fn set_status(&mut self, status: String)
        ensures
            final(self)@ == with_status(old(self)@, status@),
            final(self).spec_check() == old(self).spec_check(),
    {
        self.status = status;
    }

    fn set_selection(&mut self, selection: Selection)
        ensures
            final(self)@ == selected(old(self)@, selection),
            final(self).spec_check() == old(self).spec_check(),
    {
        self.selection = selection;
        self.raw_scroll = 0;
        self.rephrase_scroll = 0;
        self.layout_scroll = 0;
    }

    fn set_focus(&mut self, focus: FocusPanel)
        ensures
            final(self)@ == spec_set_focus(old(self)@, focus),
            final(self).spec_check() == old(self).spec_check(),
    {
        self.focus = focus;
        let mut s = String::from_str("focused ");
        s.append(focus.name());
        self.status = s;
    }

    fn select_next_pc(&mut self, delta: isize)
        ensures
            final(self)@ == spec_select_next_pc(old(self)@, delta as int),
            final(self).spec_check() == old(self).spec_check(),
    {
        match self.next_visible_pc(delta) {
            Some(pc) => {
                self.set_selection(Selection::Pc(pc));
                let mut s = String::from_str("selected pc ");
                push_hex0x(&mut s, pc);
                self.status = s;
            },
            None => {
                self.status = String::from_str("no PC in that direction");
            },
        }
    }

    fn scroll_focus(&mut self, delta: i16)
        ensures
            final(self)@ == spec_scroll_focus(old(self)@, delta as int),
            final(self).spec_check() == old(self).spec_check(),
    {
        match self.focus {
            FocusPanel::Cfg => {
                if delta >= 0 {
                    self.select_next_pc(1);
                } else {
                    self.select_next_pc(-1);
                }
            },
            FocusPanel::Rephrase => {
                let n = shift(self.rephrase_scroll, delta);
                self.rephrase_scroll = n;
                let mut s = String::from_str(self.focus.name());
                s.append(" scroll=");
                push_dec(&mut s, n as u64);
                self.status = s;
            },
            FocusPanel::Layout => {
                let n = shift(self.layout_scroll, delta);
                self.layout_scroll = n;
                let mut s = String::from_str(self.focus.name());
                s.append(" scroll=");
                push_dec(&mut s, n as u64);
                self.status = s;
            },
        }
    }

    fn scroll_step_detail(&mut self, delta: i16)
        ensures
            final(self)@ == spec_scroll_step_detail(old(self)@, delta as int),
            final(self).spec_check() == old(self).spec_check(),
    {
        let n = shift(self.layout_scroll, delta);
        self.layout_scroll = n;
        let mut s = String::from_str(self.step_detail.name());
        s.append(" scroll=");
        push_dec(&mut s, n as u64);
        self.status = s;
    }

    fn toggle_step_detail(&mut self, detail: StepDetailMode)
        ensures
            final(self)@ == spec_toggle_detail(old(self)@, detail),
            final(self).spec_check() == old(self).spec_check(),
    {
        self.step_detail = if self.step_detail == detail {
            StepDetailMode::Compact
        } else {
            detail
        };
        self.layout_scroll = 0;
        let mut s = String::from_str("comparison=");
        s.append(self.step_detail.name());
        self.status = s;
    }

    fn parse_command(&self, line: &Vec<char>) -> (r: Command)
        ensures
            command_is(r, spec_parse_command(self@, line@)),
    {
        let n = line.len();
        let a = skip_space_at(line, 0);
        if a >= n {
            return Command::Select(self.selection);
        }
        let e = token_end_at(line, a);
        let b = skip_space_at(line, e);
        let be = if b < n {
            token_end_at(line, b)
        } else {
            b
        };
        if range_is(line, a, e, "q") || range_is(line, a, e, "quit") {
            Command::Quit
        } else if range_is(line, a, e, "h") || range_is(line, a, e, "help") || range_is(line, a, e, "?") {
            Command::Help
        } else if range_is(line, a, e, "pc") {
            if b >= n {
                Command::Invalid(String::from_str("usage: pc <addr>"))
            } else {
                match parse_number_range(line, b, be) {
                    Ok(v) => Command::Select(Selection::Pc(v)),
                    Err(err) => Command::Invalid(number_error_string(err)),
                }
            }
        } else if range_is(line, a, e, "off") || range_is(line, a, e, "offset") {
            if b >= n {
                Command::Invalid(String::from_str("usage: off <fragment-offset>"))
            } else {
                match parse_number_range(line, b, be) {
                    Ok(v) => if v > usize::MAX as u64 {
                        Command::Invalid(number_error_string(NumberError::OutOfRange))
                    } else {
                        Command::Select(Selection::Offset(v as usize))
                    },
                    Err(err) => Command::Invalid(number_error_string(err)),
                }
            }
        } else if range_is(line, a, e, "n") || range_is(line, a, e, "next") {
            match self.next_pc(1) {
                Some(pc) => Command::Select(Selection::Pc(pc)),
                None => Command::Invalid(String::from_str("no next PC")),
            }
        } else if range_is(line, a, e, "p") || range_is(line, a, e, "prev") {
            match self.next_pc(-1) {
                Some(pc) => Command::Select(Selection::Pc(pc)),
                None => Command::Invalid(String::from_str("no previous PC")),
            }
        } else {
            let mut m = String::from_str("unknown command `");
            push_range(&mut m, line, a, e);
            m.append("`");
            Command::Invalid(m)
        }
    }

    fn apply_command(&mut self, line: &Vec<char>) -> (r: Control)
        ensures
            (final(self)@, r) == spec_apply_command(old(self)@, line@),
            final(self).spec_check() == old(self).spec_check(),
    {
        match self.parse_command(line) {
            Command::Select(next) => {
                self.set_selection(next);
                if self.mode == Mode::ActiveStep {
                    self.status = String::from_str("selection updated; active step session remains at its live cursor");
                } else {
                    let mut s = String::from_str("selected ");
                    match next {
                        Selection::Pc(pc) => {
                            s.append("Pc(");
                            push_dec(&mut s, pc);
                        },
                        Selection::Offset(o) => {
                            s.append("Offset(");
                            push_dec(&mut s, o as u64);
                        },
                    }
                    s.append(")");
                    assert(s@ =~= "selected "@ + selection_text(next));
                    self.status = s;
                }
                Control::Continue
            },
            Command::Help => {
                self.status = String::from_str("commands: :pc <addr>, :off <offset>, :q; keys: Tab, p/t/r, Up/Down");
                Control::Continue
            },
            Command::Quit => Control::Quit,
            Command::Invalid(message) => {
                self.status = message;
                Control::Continue
            },
        }
    }

    fn handle_command_key(&mut self, key: ExplorerKey) -> (r: Control)
        ensures
            (final(self)@, r) == spec_command_key(old(self)@, key),
            final(self).spec_check() == old(self).spec_check(),
    {
        match key {
            ExplorerKey::Esc => {
                self.command = Vec::new();
                self.command_mode = false;
                self.status = String::from_str("command cancelled");
                Control::Continue
            },
            ExplorerKey::Enter => {
                let mut command: Vec<char> = Vec::new();
                std::mem::swap(&mut command, &mut self.command);
                self.command_mode = false;
                self.apply_command(&command)
            },
            ExplorerKey::Backspace => {
                let _ = self.command.pop();
                Control::Continue
            },
            ExplorerKey::Char(c) => {
                self.command.push(c);
                Control::Continue
            },
            _ => Control::Continue,
        }
    }

    /// Handles one key, as `spec_handle_key` says: the state changes it
    /// makes, the outside work it leaves in `effect`, and whether to quit.
    pub fn handle_key(&mut self, key: ExplorerKey) -> (r: Control)
        ensures
            (final(self)@, r) == spec_handle_key(old(self)@, key),
            final(self).spec_check() == old(self).spec_check(),
    {
        self.effect = ExplorerEffect::Nothing;
        if self.command_mode {
            return self.handle_command_key(key);
        }
        let step = self.mode == Mode::ActiveStep;
        match key {
            ExplorerKey::Char('q') => Control::Quit,
            ExplorerKey::Esc if step => {
                self.effect = ExplorerEffect::LeaveStepMode;
                Control::Continue
            },
            ExplorerKey::Char(':') => {
                self.command = Vec::new();
                self.command_mode = true;
                self.status = String::from_str("enter command");
                Control::Continue
            },
            ExplorerKey::Char('y') => {
                self.effect = ExplorerEffect::ExportPanel;
                Control::Continue
            },
            ExplorerKey::Char('s') => {
                self.effect = if step {
                    ExplorerEffect::LeaveStepMode
                } else {
                    ExplorerEffect::EnterStepMode
                };
                Control::Continue
            },
            ExplorerKey::Char(' ') if step => {
                self.effect = ExplorerEffect::StepGroup;
                Control::Continue
            },
            ExplorerKey::Char('j') if step => {
                self.effect = ExplorerEffect::StepTranslated;
                Control::Continue
            },
            ExplorerKey::Down if step => {
                if self.step_detail == StepDetailMode::Compact {
                    self.status = String::from_str("Down is disabled in compact mode; use j for one instruction");
                } else {
                    self.scroll_step_detail(1);
                }
                Control::Continue
            },
            ExplorerKey::Char('r') if step => {
                self.toggle_step_detail(StepDetailMode::Registers);
                Control::Continue
            },
            ExplorerKey::Char('m') if step => {
                self.toggle_step_detail(StepDetailMode::Memory);
                Control::Continue
            },
            ExplorerKey::Char('c') if step => {
                self.step_detail = StepDetailMode::Compact;
                self.status = String::from_str("comparison=compact");
                Control::Continue
            },
            ExplorerKey::Char('R') if step => {
                self.effect = ExplorerEffect::ResetStepMode;
                Control::Continue
            },
            ExplorerKey::Up if step => {
                if self.step_detail == StepDetailMode::Compact {
                    self.status = String::from_str("reverse execution is not supported; use R to reset");
                } else {
                    self.scroll_step_detail(-1);
                }
                Control::Continue
            },
            ExplorerKey::Tab => {
                let f = self.focus.next();
                self.set_focus(f);
                Control::Continue
            },
            ExplorerKey::BackTab => {
                let f = self.focus.prev();
                self.set_focus(f);
                Control::Continue
            },
            ExplorerKey::Char('p') => {
                self.set_focus(FocusPanel::Cfg);
                Control::Continue
            },
            ExplorerKey::Char('t') => {
                self.set_focus(FocusPanel::Rephrase);
                Control::Continue
            },
            ExplorerKey::Char('r') => {
                self.set_focus(FocusPanel::Layout);
                Control::Continue
            },
            ExplorerKey::Char('n') if !step => {
                self.select_next_pc(1);
                Control::Continue
            },
            ExplorerKey::Right if !step => {
                self.select_next_pc(1);
                Control::Continue
            },
            ExplorerKey::Left if !step => {
                self.select_next_pc(-1);
                Control::Continue
            },
            ExplorerKey::Down => {
                if self.focus == FocusPanel::Cfg {
                    self.select_next_pc(1);
                } else {
                    self.scroll_focus(1);
                }
                Control::Continue
            },
            ExplorerKey::Up => {
                if self.focus == FocusPanel::Cfg {
                    self.select_next_pc(-1);
                } else {
                    self.scroll_focus(-1);
                }
                Control::Continue
            },
            ExplorerKey::PageDown | ExplorerKey::Char('d') => {
                if step {
                    self.scroll_step_detail(5);
                } else {
                    self.scroll_focus(5);
                }
                Control::Continue
            },
            ExplorerKey::PageUp | ExplorerKey::Char('u') => {
                if step {
                    self.scroll_step_detail(-5);
                } else {
                    self.scroll_focus(-5);
                }
                Control::Continue
            },
            ExplorerKey::Char('a') => {
                self.show_raw_only = !self.show_raw_only;
                self.status = if self.show_raw_only {
                    String::from_str("Program view=all")
                } else {
                    String::from_str("Program view=cfg")
                };
                Control::Continue
            },
            ExplorerKey::Char('?') | ExplorerKey::F1 => {
                self.status = match self.mode {
                    Mode::Explore => String::from_str(
                        "Explore: s step | p/t/r panels | y export panel | Up/Down move or scroll",
                    ),
                    Mode::ActiveStep => String::from_str(
                        "Step: Esc/s explore | Space group | j insn | r/m/c panes | y export | R reset",
                    ),
                };
                Control::Continue
            },
            _ => Control::Continue,
        }
    }

    /// The row of a panel's whole text that row `row` of its window shows.
    pub fn panel_absolute_row(&self, panel: MousePanel, row: usize) -> (r: usize)
        requires
            row + u16::MAX <= usize::MAX,
        ensures
            r == spec_absolute_row(self@, panel, row as int),
    {
        match panel {
            MousePanel::Program | MousePanel::ActiveOriginal => self.raw_scroll as usize + row,
            MousePanel::Translation | MousePanel::ActiveTranslated => self.rephrase_scroll as usize + row,
            MousePanel::Result | MousePanel::ActiveComparison => self.layout_scroll as usize + row,
            _ => row,
        }
    }

    /// Scrolls the panel under the mouse wheel.
    pub fn scroll_panel(&mut self, panel: MousePanel, delta: i16)
        ensures
            final(self)@ == spec_scroll_panel(old(self)@, panel, delta as int),
            final(self).spec_check() == old(self).spec_check(),
    {
        match panel {
            MousePanel::Program => self.scroll_focus(delta),
            MousePanel::Translation => {
                self.focus = FocusPanel::Rephrase;
                self.scroll_focus(delta);
            },
            MousePanel::Result => {
                self.focus = FocusPanel::Layout;
                self.scroll_focus(delta);
            },
            MousePanel::ActiveOriginal => {
                let n = shift(self.raw_scroll, delta);
                self.raw_scroll = n;
                let mut s = String::from_str("Program scroll=");
                push_dec(&mut s, n as u64);
                self.status = s;
            },
            MousePanel::ActiveTranslated => {
                let n = shift(self.rephrase_scroll, delta);
                self.rephrase_scroll = n;
                let mut s = String::from_str("Translation scroll=");
                push_dec(&mut s, n as u64);
                self.status = s;
            },
            MousePanel::ActiveComparison => self.scroll_step_detail(delta),
            _ => {
                self.status = String::from_str("state summaries do not scroll");
            },
        }
    }

    /// Selects the pc on a row of the program panel, and focuses the panel
    /// clicked.
    pub fn select_panel_row(&mut self, panel: MousePanel, absolute_row: usize)
        ensures
            final(self)@ == spec_select_row(old(self)@, panel, absolute_row as int),
            final(self).spec_check() == old(self).spec_check(),
    {
        if panel == MousePanel::Program {
            let vis = self.visible_pc_entries();
            if absolute_row < vis.len() {
                self.set_selection(Selection::Pc(vis[absolute_row]));
            }
        }
        self.set_focus(focus_for_panel(panel));
    }

    /// A mouse event at column `x`, row `y` of a `width` by `height`
    /// terminal: what it asks is read from the panels' layout and done to
    /// the explorer and to the selection in progress.
    pub fn handle_mouse(&mut self, tracker: &mut MouseTracker, width: u16, height: u16, x: u16, y: u16, kind: MouseKind)
        ensures
            (final(self)@, *final(tracker)) == spec_handle_mouse(
                old(self)@,
                *old(tracker),
                mouse::spec_mouse_action(mouse::spec_layout(width as usize, height as usize), x as usize, y as usize, kind),
            ),
            final(self).spec_check() == old(self).spec_check(),
    {
        self.effect = ExplorerEffect::Nothing;
        let layout = mouse::opentui_layout(width as usize, height as usize);
        let action = mouse::mouse_action(&layout, x as usize, y as usize, kind);
        proof {
            lemma_action_row_below(layout, x as usize, y as usize, kind);
        }
        match action {
            MouseAction::Scroll { panel, delta } => self.scroll_panel(panel, delta),
            MouseAction::Press { panel, row } => {
                let abs = self.panel_absolute_row(panel, row);
                tracker.set_anchor(panel, abs);
                self.select_panel_row(panel, abs);
            },
            MouseAction::Drag { panel, row } => {
                let abs = self.panel_absolute_row(panel, row);
                tracker.update(panel, abs);
                self.select_panel_row(panel, abs);
            },
            MouseAction::Release { panel, row } => {
                let abs = self.panel_absolute_row(panel, row);
                tracker.update(panel, abs);
                self.select_panel_row(panel, abs);
                self.effect = ExplorerEffect::CopyPanel;
            },
            MouseAction::ClearSelection => tracker.clear(),
            MouseAction::Nothing => {},
        }
    }

    /// After a copy: its message, or why it failed.
    pub fn finish_copy(&mut self, result: Result<String, String>)
        ensures
            final(self)@ == with_effect(
                with_status(
                    old(self)@,
                    match result {
                        Ok(m) => m@,
                        Err(m) => "copy failed: "@ + m@,
                    },
                ),
                ExplorerEffect::Nothing,
            ),
            final(self).spec_check() == old(self).spec_check(),
    {
        self.effect = ExplorerEffect::Nothing;
        match result {
            Ok(m) => {
                self.status = m;
            },
            Err(m) => {
                let mut s = String::from_str("copy failed: ");
                s.append(m.as_str());
                self.status = s;
            },
        }
    }

    /// After an export: its message, or why it failed.
    pub fn finish_export(&mut self, result: Result<String, String>)
        ensures
            final(self)@ == with_effect(
                with_status(
                    old(self)@,
                    match result {
                        Ok(m) => m@,
                        Err(m) => "export failed: "@ + m@,
                    },
                ),
                ExplorerEffect::Nothing,
            ),
            final(self).spec_check() == old(self).spec_check(),
    {
        self.effect = ExplorerEffect::Nothing;
        match result {
            Ok(m) => {
                self.status = m;
            },
            Err(m) => {
                let mut s = String::from_str("export failed: ");
                s.append(m.as_str());
                self.status = s;
            },
        }
    }

    /// After an attempt to start a stepping session: step mode from the
    /// entry with the compact comparison, or why it could not start.
    pub fn finish_enter_step_mode(&mut self, result: Result<(), String>)
        ensures
            final(self)@ == match result {
                Ok(_) => ExplorerView {
                    mode: Mode::ActiveStep,
                    step_detail: StepDetailMode::Compact,
                    raw_scroll: 0,
                    rephrase_scroll: 0,
                    layout_scroll: 0,
                    status: "mode=active-step start=entry; selected explore PC is not replayed yet"@,
                    effect: ExplorerEffect::Nothing,
                    ..old(self)@
                },
                Err(m) => ExplorerView {
                    status: "step mode unavailable: "@ + m@,
                    effect: ExplorerEffect::Nothing,
                    ..old(self)@
                },
            },
            final(self).spec_check() == old(self).spec_check(),
    {
        self.effect = ExplorerEffect::Nothing;
        match result {
            Ok(_) => {
                self.mode = Mode::ActiveStep;
                self.step_detail = StepDetailMode::Compact;
                self.raw_scroll = 0;
                self.rephrase_scroll = 0;
                self.layout_scroll = 0;
                self.status = String::from_str("mode=active-step start=entry; selected explore PC is not replayed yet");
            },
            Err(m) => {
                let mut s = String::from_str("step mode unavailable: ");
                s.append(m.as_str());
                self.status = s;
            },
        }
    }

    /// After the session was dropped: back to exploring, at the session's
    /// current pc or offset when it had one.
    pub fn finish_leave_step_mode(&mut self, session_selection: Option<Selection>)
        ensures
            final(self)@ == (ExplorerView {
                selection: match session_selection {
                    Some(s) => s,
                    None => old(self)@.selection,
                },
                mode: Mode::Explore,
                raw_scroll: 0,
                rephrase_scroll: 0,
                layout_scroll: 0,
                status: "mode=explore"@,
                effect: ExplorerEffect::Nothing,
                ..old(self)@
            }),
            final(self).spec_check() == old(self).spec_check(),
    {
        self.effect = ExplorerEffect::Nothing;
        match session_selection {
            Some(s) => {
                self.selection = s;
            },
            None => {},
        }
        self.mode = Mode::Explore;
        self.raw_scroll = 0;
        self.rephrase_scroll = 0;
        self.layout_scroll = 0;
        self.status = String::from_str("mode=explore");
    }

    /// After a step of the session: the step's status line.
    pub fn finish_step(&mut self, status: String)
        ensures
            final(self)@ == with_effect(with_status(old(self)@, status@), ExplorerEffect::Nothing),
            final(self).spec_check() == old(self).spec_check(),
    {
        self.effect = ExplorerEffect::Nothing;
        self.status = status;
    }

    /// After a reset of the session: every panel at the top, or why the
    /// reset failed.
    pub fn finish_reset(&mut self, result: Result<(), String>)
        ensures
            final(self)@ == match result {
                Ok(_) => ExplorerView {
                    raw_scroll: 0,
                    rephrase_scroll: 0,
                    layout_scroll: 0,
                    status: "active step reset to entry"@,
                    effect: ExplorerEffect::Nothing,
                    ..old(self)@
                },
                Err(m) => ExplorerView {
                    status: "reset failed: "@ + m@,
                    effect: ExplorerEffect::Nothing,
                    ..old(self)@
                },
            },
            final(self).spec_check() == old(self).spec_check(),
    {
        self.effect = ExplorerEffect::Nothing;
        match result {
            Ok(_) => {
                self.raw_scroll = 0;
                self.rephrase_scroll = 0;
                self.layout_scroll = 0;
                self.status = String::from_str("active step reset to entry");
            },
            Err(m) => {
                let mut s = String::from_str("reset failed: ");
                s.append(m.as_str());
                self.status = s;
            },
        }
    }
}


/// The texts of a list of lines.
pub open spec fn line_texts(lines: Seq<ExplorerLine>) -> Seq<Seq<char>> {
    lines.map_values(|l: ExplorerLine| l.text@)
}

/// '0' or '1'.
pub open spec fn bit_char(b: bool) -> char {
    if b {
        '1'
    } else {
        '0'
    }
}

/// The flags as `N?Z?C?V?`.
pub open spec fn flags_text(f: Flags) -> Seq<char> {
    seq!['N', bit_char(f.n), 'Z', bit_char(f.z), 'C', bit_char(f.c), 'V', bit_char(f.v)]
}

/// A byte as `{:#04x}` writes it, or "0" when none is stored.
pub open spec fn byte_text(b: Option<u8>) -> Seq<char> {
    match b {
        Some(v) => if v < 16 {
            "0x0"@ + a64_pretty::hex(v as nat)
        } else {
            "0x"@ + a64_pretty::hex(v as nat)
        },
        None => "0"@,
    }
}

pub open spec fn stored(m: Map<u64, u8>, a: u64) -> Option<u8> {
    if m.contains_key(a) {
        Some(m[a])
    } else {
        None
    }
}

/// One register that changed, as `x<n>: <before>-><after>`.
pub open spec fn reg_change(r: int, b: u64, a: u64) -> Seq<char> {
    "x"@ + a64_pretty::dec(r as nat) + ": "@ + a64_pretty::hex0x(b as nat) + "->"@ + a64_pretty::hex0x(a as nat)
}

/// The changes of the first `n` general registers, in register order.
pub open spec fn reg_changes(b: MachineView, a: MachineView, n: nat) -> Seq<Seq<char>>
    decreases n,
{
    if n == 0 {
        seq![]
    } else {
        let rest = reg_changes(b, a, (n - 1) as nat);
        if b.x_at(n - 1) != a.x_at(n - 1) {
            rest.push(reg_change(n - 1, b.x_at(n - 1), a.x_at(n - 1)))
        } else {
            rest
        }
    }
}

/// The parts joined with `sep` between them.
pub open spec fn joined(parts: Seq<Seq<char>>, sep: Seq<char>) -> Seq<char>
    decreases parts.len(),
{
    if parts.len() == 0 {
        seq![]
    } else if parts.len() == 1 {
        parts[0]
    } else {
        joined(parts.drop_last(), sep) + sep + parts.last()
    }
}

pub open spec fn regs_line(c: Seq<Seq<char>>) -> Seq<char> {
    if c.len() == 0 {
        "regs: unchanged"@
    } else if c.len() <= 8 {
        "regs: "@ + joined(c, ", "@)
    } else {
        "regs: "@ + joined(c.take(8), ", "@) + " ... +"@ + a64_pretty::dec((c.len() - 8) as nat) + " more"@
    }
}

/// Whether the byte at `x` differs between the two memories.
pub open spec fn byte_changed(b: Map<u64, u8>, a: Map<u64, u8>, x: u64) -> bool {
    stored(b, x) != stored(a, x)
}

pub open spec fn mem_line(b: Map<u64, u8>, a: Map<u64, u8>, x: u64) -> Seq<char> {
    "mem["@ + a64_pretty::hex0x(x as nat) + "]: "@ + byte_text(stored(b, x)) + "->"@ + byte_text(stored(a, x))
}

/// The memory part of a diff, for the changed addresses `m` in order.
pub open spec fn mem_lines(b: Map<u64, u8>, a: Map<u64, u8>, m: Seq<u64>) -> Seq<Seq<char>> {
    if m.len() == 0 {
        seq!["memory: unchanged"@]
    } else {
        let shown = if m.len() <= 8 {
            m
        } else {
            m.take(8)
        };
        let head = seq!["memory_changed_bytes="@ + a64_pretty::dec(m.len())] + shown.map_values(
            |x: u64| mem_line(b, a, x),
        );
        if m.len() > 8 {
            head.push("... +"@ + a64_pretty::dec((m.len() - 8) as nat) + " more memory byte changes"@)
        } else {
            head
        }
    }
}

/// The lines that describe how `a` differs from `b`: changed registers
/// (at most eight named), the stack pointer, the flags, changed memory bytes
/// (at most eight shown, `m` lists them in increasing order), and a closing
/// line when nothing differs.
pub open spec fn diff_lines(b: MachineView, a: MachineView, m: Seq<u64>) -> Seq<Seq<char>> {
    let regs = seq![regs_line(reg_changes(b, a, 31))];
    let sp = if b.sp != a.sp {
        seq!["sp: "@ + a64_pretty::hex0x(b.sp as nat) + "->"@ + a64_pretty::hex0x(a.sp as nat)]
    } else {
        seq![]
    };
    let flags = if b.flags != a.flags {
        seq!["flags: "@ + flags_text(b.flags) + "->"@ + flags_text(a.flags)]
    } else {
        seq![]
    };
    let eq = if b == a {
        seq!["state_equal=true"@]
    } else {
        seq![]
    };
    regs + sp + flags + mem_lines(b.mem, a.mem, m) + eq
}

fn push_flags(s: &mut String, f: Flags)
    ensures
        final(s)@ == old(s)@ + flags_text(f),
{
    push_char(s, 'N');
    push_char(s, if f.n { '1' } else { '0' });
    push_char(s, 'Z');
    push_char(s, if f.z { '1' } else { '0' });
    push_char(s, 'C');
    push_char(s, if f.c { '1' } else { '0' });
    push_char(s, 'V');
    push_char(s, if f.v { '1' } else { '0' });
    assert(s@ =~= old(s)@ + flags_text(f));
}

fn push_byte(s: &mut String, b: Option<u8>)
    ensures
        final(s)@ == old(s)@ + byte_text(b),
{
    match b {
        Some(v) => {
            if v < 16 {
                s.append("0x0");
            } else {
                s.append("0x");
            }
            push_hex(s, v as u64);
        },
        None => {
            s.append("0");
        },
    }
    assert(s@ =~= old(s)@ + byte_text(b));
}

fn reg_change_lines(before: &MachineState, after: &MachineState) -> (r: Vec<String>)
    ensures
        r@.map_values(|t: String| t@) == reg_changes(before@, after@, 31),
{
    let mut r: Vec<String> = Vec::new();
    let mut reg: u8 = 0;
    while reg < 31
        invariant
            reg <= 31,
            r@.map_values(|t: String| t@) == reg_changes(before@, after@, reg as nat),
        decreases 31 - reg,
    {
        let bv = before.read_x(reg);
        let av = after.read_x(reg);
        if bv != av {
            let mut t = String::from_str("x");
            push_dec(&mut t, reg as u64);
            t.append(": ");
            push_hex0x(&mut t, bv);
            t.append("->");
            push_hex0x(&mut t, av);
            let ghost old_r = r@;
            r.push(t);
            assert(r@.map_values(|t: String| t@) =~= old_r.map_values(|t: String| t@).push(
                reg_change(reg as int, bv, av),
            ));
        }
        reg = reg + 1;
    }
    r
}

fn join_lines(parts: &Vec<String>, n: usize) -> (r: String)
    requires
        n <= parts@.len(),
    ensures
        r@ == joined(parts@.map_values(|t: String| t@).take(n as int), ", "@),
{
    let ghost texts = parts@.map_values(|t: String| t@);
    let mut s = String::new();
    let mut i: usize = 0;
    while i < n
        invariant
            i <= n <= parts@.len(),
            texts == parts@.map_values(|t: String| t@),
            s@ == joined(texts.take(i as int), ", "@),
        decreases n - i,
    {
        if i > 0 {
            s.append(", ");
        }
        s.append(parts[i].as_str());
        assert(texts.take(i + 1).drop_last() =~= texts.take(i as int));
        i = i + 1;
    }
    s
}

/// The addresses whose byte differs between the two states, in increasing
/// order.
fn changed_addresses(before: &MachineState, after: &MachineState) -> (r: Vec<u64>)
    ensures
        active_step::strictly_increasing(r@),
        forall|x: u64| r@.contains(x) <==> byte_changed(before@.mem, after@.mem, x),
{
    let ba = before.memory().addrs();
    let aa = after.memory().addrs();
    let all = active_step::sorted_union(&ba, &aa);
    let mut r: Vec<u64> = Vec::new();
    let mut k: usize = 0;
    while k < all.len()
        invariant
            k <= all@.len(),
            active_step::strictly_increasing(all@),
            forall|x: u64| all@.contains(x) <==> (before@.mem.contains_key(x) || after@.mem.contains_key(x)),
            active_step::strictly_increasing(r@),
            forall|i: int| 0 <= i < r@.len() ==> (exists|j: int| 0 <= j < k && all@[j] == #[trigger] r@[i]),
            forall|x: u64| r@.contains(x) ==> byte_changed(before@.mem, after@.mem, x),
            forall|j: int| 0 <= j < k && byte_changed(before@.mem, after@.mem, #[trigger] all@[j]) ==> r@.contains(all@[j]),
        decreases all@.len() - k,
    {
        let x = all[k];
        let b = before.memory().get(x);
        let a = after.memory().get(x);
        if b != a {
            let ghost old_r = r@;
            proof {
                assert forall|i: int| 0 <= i < old_r.len() implies old_r[i] < x by {
                    let j = choose|j: int| 0 <= j < k && all@[j] == old_r[i];
                }
            }
            r.push(x);
            proof {
                assert forall|i: int| 0 <= i < r@.len() implies (exists|j: int| 0 <= j < k + 1 && all@[j] == #[trigger] r@[i]) by {
                    if i < old_r.len() {
                        let j = choose|j: int| 0 <= j < k && all@[j] == old_r[i];
                        assert(all@[j] == r@[i]);
                    } else {
                        assert(all@[k as int] == r@[i]);
                    }
                }
                assert forall|x2: u64| r@.contains(x2) implies byte_changed(before@.mem, after@.mem, x2) by {
                    if x2 != x {
                        assert(old_r.contains(x2)) by {
                            let i = choose|i: int| 0 <= i < r@.len() && r@[i] == x2;
                            assert(old_r[i] == x2);
                        }
                    }
                }
                assert forall|j: int| 0 <= j < k + 1 && byte_changed(before@.mem, after@.mem, #[trigger] all@[j]) implies r@.contains(all@[j]) by {
                    if j < k {
                        assert(old_r.contains(all@[j]));
                        let i = choose|i: int| 0 <= i < old_r.len() && old_r[i] == all@[j];
                        assert(r@[i] == all@[j]);
                    } else {
                        assert(r@[old_r.len() as int] == x);
                    }
                }
            }
        }
        k = k + 1;
    }
    proof {
        assert forall|x: u64| byte_changed(before@.mem, after@.mem, x) implies r@.contains(x) by {
            assert(before@.mem.contains_key(x) || after@.mem.contains_key(x));
            assert(all@.contains(x));
            let j = choose|j: int| 0 <= j < all@.len() && all@[j] == x;
        }
    }
    r
}

/// Appends the lines that describe how `after` differs from `before`.
#[verifier::rlimit(80)]
fn append_state_diff_lines(lines: &mut Vec<ExplorerLine>, before: &MachineState, after: &MachineState)
    ensures
        exists|m: Seq<u64>|
            active_step::strictly_increasing(m) && (forall|x: u64| m.contains(x) <==> byte_changed(before@.mem, after@.mem, x))
                && line_texts(final(lines)@) == line_texts(old(lines)@) + diff_lines(before@, after@, m),
{
    let ghost start = line_texts(lines@);
    let changed = reg_change_lines(before, after);
    let ghost c = changed@.map_values(|t: String| t@);
    let mut head = String::from_str("regs: ");
    if changed.len() == 0 {
        head = String::from_str("regs: unchanged");
    } else if changed.len() <= 8 {
        let j = join_lines(&changed, changed.len());
        assert(c.take(c.len() as int) =~= c);
        head.append(j.as_str());
    } else {
        let j = join_lines(&changed, 8);
        head.append(j.as_str());
        head.append(" ... +");
        push_dec(&mut head, (changed.len() - 8) as u64);
        head.append(" more");
    }
    assert(head@ =~= regs_line(c));
    lines.push(ExplorerLine { text: head });
    let ghost l1 = line_texts(lines@);
    assert(l1 =~= start + seq![regs_line(c)]);
    let ghost after_regs = l1;
    let bsp = before.sp();
    let asp = after.sp();
    if bsp != asp {
        let mut t = String::from_str("sp: ");
        push_hex0x(&mut t, bsp);
        t.append("->");
        push_hex0x(&mut t, asp);
        let ghost prev = line_texts(lines@);
        lines.push(ExplorerLine { text: t });
        assert(line_texts(lines@) =~= prev.push(t@));
    }
    let bf = before.flags();
    let af = after.flags();
    if bf != af {
        let mut t = String::from_str("flags: ");
        push_flags(&mut t, bf);
        t.append("->");
        push_flags(&mut t, af);
        let ghost prev = line_texts(lines@);
        lines.push(ExplorerLine { text: t });
        assert(line_texts(lines@) =~= prev.push(t@));
    }
    let ghost after_state = line_texts(lines@);
    let ghost sp_part = if before@.sp != after@.sp {
        seq!["sp: "@ + a64_pretty::hex0x(before@.sp as nat) + "->"@ + a64_pretty::hex0x(after@.sp as nat)]
    } else {
        Seq::<Seq<char>>::empty()
    };
    let ghost flags_part = if before@.flags != after@.flags {
        seq!["flags: "@ + flags_text(before@.flags) + "->"@ + flags_text(after@.flags)]
    } else {
        Seq::<Seq<char>>::empty()
    };
    assert(after_state =~= after_regs + sp_part + flags_part);
    let m = changed_addresses(before, after);
    if m.len() == 0 {
        let ghost prev = line_texts(lines@);
        lines.push(ExplorerLine { text: String::from_str("memory: unchanged") });
        assert(line_texts(lines@) =~= prev.push("memory: unchanged"@));
    } else {
        let mut t = String::from_str("memory_changed_bytes=");
        push_dec(&mut t, m.len() as u64);
        let ghost prev = line_texts(lines@);
        lines.push(ExplorerLine { text: t });
        assert(line_texts(lines@) =~= prev.push(t@));
        let shown = if m.len() <= 8 {
            m.len()
        } else {
            8
        };
        let ghost pre = line_texts(lines@);
        let mut i: usize = 0;
        while i < shown
            invariant
                i <= shown <= m@.len(),
                line_texts(lines@) == pre + m@.take(i as int).map_values(|x: u64| mem_line(before@.mem, after@.mem, x)),
            decreases shown - i,
        {
            let x = m[i];
            let mut t = String::from_str("mem[");
            push_hex0x(&mut t, x);
            t.append("]: ");
            push_byte(&mut t, before.memory().get(x));
            t.append("->");
            push_byte(&mut t, after.memory().get(x));
            let ghost prev = line_texts(lines@);
            lines.push(ExplorerLine { text: t });
            proof {
                assert(t@ == mem_line(before@.mem, after@.mem, x));
                assert(m@.take(i + 1) =~= m@.take(i as int).push(x));
                assert(line_texts(lines@) =~= prev.push(t@));
                assert(m@.take(i + 1).map_values(|x: u64| mem_line(before@.mem, after@.mem, x)) =~= m@.take(
                    i as int,
                ).map_values(|x: u64| mem_line(before@.mem, after@.mem, x)).push(t@));
            }
            i = i + 1;
        }
        proof {
            if m@.len() <= 8 {
                assert(m@.take(m@.len() as int) =~= m@);
            }
        }
        if m.len() > 8 {
            let mut t = String::from_str("... +");
            push_dec(&mut t, (m.len() - 8) as u64);
            t.append(" more memory byte changes");
            let ghost prev = line_texts(lines@);
            lines.push(ExplorerLine { text: t });
            assert(line_texts(lines@) =~= prev.push(t@));
        }
    }
    let ghost after_mem = line_texts(lines@);
    assert(after_mem =~= after_state + mem_lines(before@.mem, after@.mem, m@));
    let equal = changed.len() == 0 && bsp == asp && bf == af && m.len() == 0;
    proof {
        before.lemma_x_len();
        after.lemma_x_len();
        lemma_equal_states(before@, after@, m@);
        assert(c.len() == changed@.len());
    }
    if equal {
        let ghost prev = line_texts(lines@);
        lines.push(ExplorerLine { text: String::from_str("state_equal=true") });
        assert(line_texts(lines@) =~= prev.push("state_equal=true"@));
    }
    proof {
        assert(line_texts(lines@) =~= start + diff_lines(before@, after@, m@));
    }
}

/// Two states are equal exactly when no register, the stack pointer, the
/// flags and no memory byte differ.
proof fn lemma_equal_states(b: MachineView, a: MachineView, m: Seq<u64>)
    requires
        b.x.len() == 31,
        a.x.len() == 31,
        forall|x: u64| m.contains(x) <==> byte_changed(b.mem, a.mem, x),
    ensures
        (b == a) <==> (reg_changes(b, a, 31).len() == 0 && b.sp == a.sp && b.flags == a.flags && m.len() == 0),
{
    lemma_reg_changes_empty(b, a, 31);
    if reg_changes(b, a, 31).len() == 0 && b.sp == a.sp && b.flags == a.flags && m.len() == 0 {
        assert(b.x =~= a.x);
        assert forall|x: u64| #[trigger] b.mem.contains_key(x) == a.mem.contains_key(x) by {
            assert(!m.contains(x));
        }
        assert forall|x: u64| #[trigger] b.mem.contains_key(x) implies b.mem[x] == a.mem[x] by {
            assert(!m.contains(x));
        }
        assert(b.mem =~= a.mem);
    }
    if b == a {
        if m.len() > 0 {
            assert(m.contains(m[0]));
        }
    }
}

proof fn lemma_reg_changes_empty(b: MachineView, a: MachineView, n: nat)
    requires
        n <= 31,
        b.x.len() == 31,
        a.x.len() == 31,
    ensures
        reg_changes(b, a, n).len() == 0 <==> forall|r: int| 0 <= r < n ==> b.x[r] == a.x[r],
    decreases n,
{
    if n > 0 {
        lemma_reg_changes_empty(b, a, (n - 1) as nat);
        let rest = reg_changes(b, a, (n - 1) as nat);
        if b.x_at(n - 1) != a.x_at(n - 1) {
            assert(reg_changes(b, a, n).len() == rest.len() + 1);
        }
    }
}

/// The lines that describe a step: how the current state differs from the
/// previous one.
pub fn state_summary_lines(snapshot: &StateSnapshot) -> (r: Vec<ExplorerLine>)
    ensures
        exists|m: Seq<u64>|
            active_step::strictly_increasing(m) && (forall|x: u64|
                m.contains(x) <==> byte_changed(snapshot.previous@.mem, snapshot.current@.mem, x))
                && line_texts(r@) == diff_lines(snapshot.previous@, snapshot.current@, m),
{
    let mut lines: Vec<ExplorerLine> = Vec::new();
    append_state_diff_lines(&mut lines, &snapshot.previous, &snapshot.current);
    assert(line_texts(Seq::<ExplorerLine>::empty()) =~= Seq::<Seq<char>>::empty());
    lines
}

} // verus!
