use vstd::prelude::*;

use vstd::string::*;

use crate::text::{chars_of, decimal, join_chars, push_decimal, string_push};

verus! {

/// `n` backslashes.
pub open spec fn backslashes(n: nat) -> Seq<char> {
    Seq::new(n, |_i: int| '\\')
}

/// Whether an argument must be wrapped in double quotes to survive the
/// Windows command-line parser: it holds a space, a tab or a double quote.
pub open spec fn needs_quotes(s: Seq<char>) -> bool {
    s.contains(' ') || s.contains('\t') || s.contains('"')
}

/// The quoted form of the rest `s` of an argument, after `pending`
/// backslashes that have been read and not yet written.  Backslashes are
/// written only once it is known what follows them: doubled and one more
/// before a double quote (which is then escaped), doubled before the closing
/// quote, and as they are before any other character.
pub open spec fn quoted_rest(s: Seq<char>, pending: nat) -> Seq<char>
    decreases s.len(),
{
    if s.len() == 0 {
        backslashes(2 * pending).push('"')
    } else if s[0] == '\\' {
        quoted_rest(s.drop_first(), pending + 1)
    } else if s[0] == '"' {
        backslashes(2 * pending + 1).push('"') + quoted_rest(s.drop_first(), 0)
    } else {
        backslashes(pending).push(s[0]) + quoted_rest(s.drop_first(), 0)
    }
}

/// An argument as written on a Windows command line: `""` for the empty
/// argument, the argument itself where it holds no space, tab or double quote,
/// and otherwise the argument in double quotes with its quotes and the
/// backslashes before them escaped.
pub open spec fn quoted_arg(s: Seq<char>) -> Seq<char> {
    if s.len() == 0 {
        seq!['"', '"']
    } else if !needs_quotes(s) {
        s
    } else {
        seq!['"'] + quoted_rest(s, 0)
    }
}

/// A command line made of the quoted arguments, separated by single spaces.
pub open spec fn joined_args(args: Seq<Seq<char>>) -> Seq<char> {
    join_chars(args.map_values(|a: Seq<char>| quoted_arg(a)), ' ')
}

fn push_backslashes(s: &mut String, n: usize)
    ensures
        final(s)@ == old(s)@ + backslashes(n as nat),
{
    for k in 0..n
        invariant
            s@ == old(s)@ + backslashes(k as nat),
    {
        string_push(s, '\\');
        assert(old(s)@ + backslashes((k + 1) as nat) =~= (old(s)@ + backslashes(k as nat)).push('\\'));
    }
}

fn contains_char(v: &Vec<char>, c: char) -> (r: bool)
    ensures
        r == v@.contains(c),
{
    for i in 0..v.len()
        invariant
            forall|j: int| 0 <= j < i ==> v@[j] != c,
    {
        if v[i] == c {
            return true;
        }
    }
    false
}

/// Writes one argument so that the Windows command-line parser reads it back
/// unchanged.
pub fn quote_windows_arg(value: &str) -> (quoted: String)
    ensures
        quoted@ == quoted_arg(value@),
{
    let v = chars_of(value);
    let n = v.len();
    if n == 0 {
        let mut empty = String::new();
        string_push(&mut empty, '"');
        string_push(&mut empty, '"');
        assert(empty@ =~= seq!['"', '"']);
        return empty;
    }
    if !(contains_char(&v, ' ') || contains_char(&v, '\t') || contains_char(&v, '"')) {
        return value.to_string();
    }
    let mut quoted = String::new();
    string_push(&mut quoted, '"');
    let mut backslash_count: usize = 0;
    assert(v@.skip(0) =~= v@);
    for i in 0..n
        invariant
            n == v@.len(),
            backslash_count <= i,
            seq!['"'] + quoted_rest(v@, 0) == quoted@ + quoted_rest(v@.skip(i as int), backslash_count as nat),
    {
        let ghost rest = v@.skip(i as int);
        assert(rest[0] == v@[i as int]);
        assert(rest.drop_first() =~= v@.skip(i + 1));
        let ch = v[i];
        if ch == '\\' {
            backslash_count = backslash_count + 1;
        } else if ch == '"' {
            let ghost before = quoted@;
            push_backslashes(&mut quoted, backslash_count);
            push_backslashes(&mut quoted, backslash_count);
            string_push(&mut quoted, '\\');
            string_push(&mut quoted, '"');
            assert(quoted@ =~= before + backslashes(2 * backslash_count as nat + 1).push('"'));
            backslash_count = 0;
        } else {
            let ghost before = quoted@;
            push_backslashes(&mut quoted, backslash_count);
            string_push(&mut quoted, ch);
            assert(quoted@ =~= before + backslashes(backslash_count as nat).push(ch));
            backslash_count = 0;
        }
    }
    let ghost before = quoted@;
    push_backslashes(&mut quoted, backslash_count);
    push_backslashes(&mut quoted, backslash_count);
    string_push(&mut quoted, '"');
    assert(v@.skip(n as int).len() == 0);
    assert(quoted@ =~= before + backslashes(2 * backslash_count as nat).push('"'));
    quoted
}


/// The views of a list of strings.
pub open spec fn string_views(args: Seq<String>) -> Seq<Seq<char>> {
    args.map_values(|a: String| a@)
}

/// Writes the arguments as one Windows command line.
pub fn join_windows_args(args: &Vec<String>) -> (line: String)
    ensures
        line@ == joined_args(string_views(args@)),
{
    let ghost parts = string_views(args@).map_values(|a: Seq<char>| quoted_arg(a));
    let mut line = String::new();
    let n = args.len();
    for i in 0..n
        invariant
            n == args@.len(),
            parts == string_views(args@).map_values(|a: Seq<char>| quoted_arg(a)),
            line@ == join_chars(parts.take(i as int), ' '),
    {
        let quoted = quote_windows_arg(args[i].as_str());
        assert(parts.take(i + 1).drop_last() =~= parts.take(i as int));
        assert(parts[i as int] == quoted@);
        if i > 0 {
            string_push(&mut line, ' ');
        }
        line.append(quoted.as_str());
        assert(line@ =~= join_chars(parts.take(i + 1), ' '));
    }
    assert(parts.take(n as int) =~= parts);
    line
}


/// The UTF-16 code units of one character: the scalar value itself below
/// U+10000, and otherwise a high and a low surrogate.
pub open spec fn utf16_units(c: char) -> Seq<u16> {
    let v = c as u32;
    if v < 0x10000 {
        seq![v as u16]
    } else {
        seq![(0xD800 + (v - 0x10000) / 0x400) as u16, (0xDC00 + (v - 0x10000) % 0x400) as u16]
    }
}

/// The UTF-16 encoding of a sequence of characters.
pub open spec fn utf16_encode(s: Seq<char>) -> Seq<u16>
    decreases s.len(),
{
    if s.len() == 0 {
        seq![]
    } else {
        utf16_encode(s.drop_last()) + utf16_units(s.last())
    }
}

proof fn lemma_units_nonzero(c: char)
    requires
        c != '\0',
    ensures
        forall|i: int| 0 <= i < utf16_units(c).len() ==> #[trigger] utf16_units(c)[i] != 0u16,
{
    vstd::utf8::char_is_scalar(c);
    let v = c as u32;
    if v < 0x10000 {
        assert(v != 0) by {
            vstd::utf8::char_u32_cast(c, v);
        }
    }
}

proof fn lemma_encode_nonzero(s: Seq<char>)
    requires
        !s.contains('\0'),
    ensures
        forall|i: int| 0 <= i < utf16_encode(s).len() ==> #[trigger] utf16_encode(s)[i] != 0u16,
    decreases s.len(),
{
    if s.len() > 0 {
        assert(!s.drop_last().contains('\0')) by {
            if s.drop_last().contains('\0') {
                let j = choose|j: int| 0 <= j < s.drop_last().len() && s.drop_last()[j] == '\0';
                assert(s[j] == '\0');
            }
        }
        lemma_encode_nonzero(s.drop_last());
        assert(s.contains(s.last())) by {
            assert(s[s.len() - 1] == s.last());
        }
        lemma_units_nonzero(s.last());
        let a = utf16_encode(s.drop_last());
        let b = utf16_units(s.last());
        assert(utf16_encode(s) == a + b);
        assert forall|i: int| 0 <= i < utf16_encode(s).len() implies #[trigger] utf16_encode(s)[i] != 0u16 by {
            if i < a.len() {
                assert(utf16_encode(s)[i] == a[i]);
            } else {
                assert(utf16_encode(s)[i] == b[i - a.len()]);
            }
        }
    }
}

/// A string without NUL characters becomes a wide string whose only NUL is
/// its last unit, so that the Windows API reads all of it and no further.
pub proof fn law_wide_string_single_terminator(s: Seq<char>)
    requires
        !s.contains('\0'),
    ensures
        utf16_encode(s).push(0u16).last() == 0u16,
        forall|i: int| 0 <= i < utf16_encode(s).len() ==> #[trigger] utf16_encode(s).push(0u16)[i] != 0u16,
{
    lemma_encode_nonzero(s);
    assert forall|i: int| 0 <= i < utf16_encode(s).len() implies #[trigger] utf16_encode(s).push(0u16)[i] != 0u16 by {
        assert(utf16_encode(s).push(0u16)[i] == utf16_encode(s)[i]);
    }
}

/// Reads UTF-16 code units back as characters: a high surrogate
/// (D800-DBFF) followed by a low surrogate (DC00-DFFF) is the supplementary
/// character 0x10000 + (high - 0xD800) * 0x400 + (low - 0xDC00); any other
/// unit is the character with that value.
pub open spec fn utf16_decode(units: Seq<u16>) -> Seq<char>
    decreases units.len(),
{
    if units.len() == 0 {
        seq![]
    } else if units.len() >= 2 && 0xD800 <= units[0] < 0xDC00 && 0xDC00 <= units[1] < 0xE000 {
        seq![((units[0] - 0xD800) * 0x400 + (units[1] - 0xDC00) + 0x10000) as u32 as char]
            + utf16_decode(units.subrange(2, units.len() as int))
    } else {
        seq![units[0] as u32 as char] + utf16_decode(units.drop_first())
    }
}

proof fn lemma_encode_front(s: Seq<char>)
    requires
        s.len() > 0,
    ensures
        utf16_encode(s) == utf16_units(s[0]) + utf16_encode(s.drop_first()),
    decreases s.len(),
{
    if s.len() == 1 {
        assert(s.drop_last().len() == 0);
        assert(s.drop_first().len() == 0);
        assert(utf16_encode(s.drop_last()) == Seq::<u16>::empty());
        assert(utf16_encode(s.drop_first()) == Seq::<u16>::empty());
        assert(s.last() == s[0]);
        assert(utf16_encode(s) == utf16_encode(s.drop_last()) + utf16_units(s.last()));
        assert(utf16_encode(s) =~= utf16_units(s[0]) + utf16_encode(s.drop_first()));
    } else {
        let dl = s.drop_last();
        lemma_encode_front(dl);
        let df = s.drop_first();
        assert(df.drop_last() =~= dl.drop_first());
        assert(df.last() == s.last());
        assert(dl[0] == s[0]);
        assert(utf16_encode(s) == utf16_encode(dl) + utf16_units(s.last()));
        assert(utf16_encode(df) == utf16_encode(df.drop_last()) + utf16_units(df.last()));
        assert(utf16_encode(df.drop_last()) == utf16_encode(dl.drop_first()));
        let a = utf16_units(s[0]);
        let m = utf16_encode(dl.drop_first());
        let z = utf16_units(s.last());
        assert(utf16_encode(s) == (a + m) + z);
        assert(utf16_encode(df) == m + z);
        assert((a + m) + z =~= a + (m + z));
        assert(utf16_encode(s) == a + utf16_encode(df));
    }
}

proof fn lemma_decode_char(c: char, rest: Seq<u16>)
    ensures
        utf16_decode(utf16_units(c) + rest) == seq![c] + utf16_decode(rest),
{
    vstd::utf8::char_is_scalar(c);
    let v = c as u32;
    vstd::utf8::char_u32_cast(c, v);
    let u = utf16_units(c) + rest;
    if v < 0x10000 {
        assert(!(0xD800 <= v <= 0xDFFF));
        assert(u[0] == v as u16);
        assert((v as u16) as u32 == v);
        assert(u.drop_first() =~= rest);
    } else {
        let w = (v - 0x10000) as int;
        assert(w == (w / 0x400) * 0x400 + w % 0x400) by (nonlinear_arith);
        assert(0 <= w / 0x400 < 0x400) by (nonlinear_arith)
            requires
                0 <= w < 0x100000,
        ;
        let hi = (0xD800 + w / 0x400) as u16;
        let lo = (0xDC00 + w % 0x400) as u16;
        assert(u[0] == hi && u[1] == lo);
        assert(((hi - 0xD800) * 0x400 + (lo - 0xDC00) + 0x10000) as u32 == v);
        assert(u.subrange(2, u.len() as int) =~= rest);
    }
}

proof fn lemma_decode_encode(s: Seq<char>)
    ensures
        utf16_decode(utf16_encode(s)) == s,
    decreases s.len(),
{
    if s.len() == 0 {
        assert(utf16_encode(s) =~= Seq::<u16>::empty());
    } else {
        lemma_encode_front(s);
        lemma_decode_char(s[0], utf16_encode(s.drop_first()));
        lemma_decode_encode(s.drop_first());
        assert(seq![s[0]] + s.drop_first() =~= s);
    }
}

/// The wide string is standard UTF-16: every character below U+10000 is the
/// one unit equal to its scalar value, every other one a surrogate pair, and
/// reading the units before the terminating NUL back as UTF-16 gives the
/// string unchanged.
pub proof fn law_wide_string_is_utf16(s: Seq<char>, c: char)
    ensures
        (c as u32) < 0x10000 ==> utf16_units(c) == seq![(c as u32) as u16],
        (c as u32) >= 0x10000 ==> utf16_units(c).len() == 2 && 0xD800 <= utf16_units(c)[0] < 0xDC00
            && 0xDC00 <= utf16_units(c)[1] < 0xE000,
        utf16_decode(utf16_encode(s).push(0u16).drop_last()) == s,
{
    lemma_decode_encode(s);
    assert(utf16_encode(s).push(0u16).drop_last() =~= utf16_encode(s));
    vstd::utf8::char_is_scalar(c);
    let v = c as u32;
    if v >= 0x10000 {
        let w = (v - 0x10000) as int;
        assert(0 <= w / 0x400 < 0x400) by (nonlinear_arith)
            requires
                0 <= w < 0x100000,
        ;
    }
}

/// A string as a NUL-terminated wide string, the form that the Windows API takes.
pub fn wide_from_str(value: &str) -> (wide: Vec<u16>)
    ensures
        wide@ == utf16_encode(value@).push(0u16),
{
    let v = chars_of(value);
    let n = v.len();
    let mut wide: Vec<u16> = Vec::new();
    for i in 0..n
        invariant
            n == v@.len(),
            wide@ == utf16_encode(v@.take(i as int)),
    {
        let c = v[i];
        let code = c as u32;
        proof {
            vstd::utf8::char_is_scalar(c);
        }
        assert(v@.take(i + 1).drop_last() =~= v@.take(i as int));
        if code < 0x10000 {
            wide.push(code as u16);
        } else {
            let offset = code - 0x10000;
            wide.push((0xD800 + offset / 0x400) as u16);
            wide.push((0xDC00 + offset % 0x400) as u16);
        }
        assert(wide@ =~= utf16_encode(v@.take(i + 1)));
    }
    assert(v@.take(n as int) =~= v@);
    wide.push(0);
    wide
}


/// Why the process could not be checked for, or given, administrator rights.
#[derive(Debug, Clone, Copy, PartialEq, Eq, Structural)]
pub enum ElevationError {
    /// `OpenProcessToken` failed.
    OpenProcessTokenFailed,
    /// `GetTokenInformation(TokenElevation)` failed.
    TokenElevationQueryFailed,
    /// The path of the running executable could not be resolved.
    CurrentExeUnavailable,
    /// `ShellExecuteW` with the `runas` verb returned this code.
    ShellExecuteFailed(isize),
}

/// The message of an elevation error.
pub open spec fn spec_elevation_error_message(error: ElevationError) -> Seq<char> {
    match error {
        ElevationError::OpenProcessTokenFailed => "OpenProcessToken failed"@,
        ElevationError::TokenElevationQueryFailed => "GetTokenInformation(TokenElevation) failed"@,
        ElevationError::CurrentExeUnavailable => "failed to resolve current executable"@,
        ElevationError::ShellExecuteFailed(code) => "ShellExecuteW(runas) failed with code "@ + decimal(
            code as int,
        ),
    }
}

/// The message that a failed elevation reports.
pub fn elevation_error_message(error: ElevationError) -> (message: String)
    ensures
        message@ == spec_elevation_error_message(error),
{
    match error {
        ElevationError::OpenProcessTokenFailed => String::from_str("OpenProcessToken failed"),
        ElevationError::TokenElevationQueryFailed => String::from_str(
            "GetTokenInformation(TokenElevation) failed",
        ),
        ElevationError::CurrentExeUnavailable => String::from_str("failed to resolve current executable"),
        ElevationError::ShellExecuteFailed(code) => {
            let mut message = String::from_str("ShellExecuteW(runas) failed with code ");
            push_decimal(&mut message, code);
            message
        },
    }
}

/// Whether the running process had administrator rights already, or a new
/// elevated instance was started in its place.
#[derive(Debug, Clone, Copy, PartialEq, Eq, Structural)]
pub enum ElevationState {
    AlreadyElevated,
    Relaunched,
}

/// What to do after the process was checked for administrator rights.
#[derive(Debug, Clone, Copy)]
pub enum ElevationStep {
    /// Nothing more is to be done: this is the outcome.
    Done(Result<ElevationState, ElevationError>),
    /// Start an elevated instance with the same arguments, then report how
    /// that went to `relaunch_finished`.
    Relaunch,
}

/// The first decision of the elevation check, given whether the process is
/// elevated (or why that could not be found out): an elevated process goes
/// on, a failed check is the outcome, and otherwise an elevated instance is
/// started.
pub fn ensure_windows_elevated(elevated: Result<bool, ElevationError>) -> (step: ElevationStep)
    ensures
        step == (match elevated {
            Ok(true) => ElevationStep::Done(Ok(ElevationState::AlreadyElevated)),
            Ok(false) => ElevationStep::Relaunch,
            Err(e) => ElevationStep::Done(Err(e)),
        }),
{
    match elevated {
        Ok(true) => ElevationStep::Done(Ok(ElevationState::AlreadyElevated)),
        Ok(false) => ElevationStep::Relaunch,
        Err(e) => ElevationStep::Done(Err(e)),
    }
}

/// The outcome of the elevation check once the elevated instance was started,
/// or failed to start.
pub fn relaunch_finished(relaunch: Result<(), ElevationError>) -> (outcome: Result<ElevationState, ElevationError>)
    ensures
        outcome == (match relaunch {
            Ok(()) => Ok(ElevationState::Relaunched),
            Err(e) => Err(e),
        }),
{
    match relaunch {
        Ok(()) => Ok(ElevationState::Relaunched),
        Err(e) => Err(e),
    }
}

/// What to do after checking for administrator rights before a TUN device is
/// created.
#[derive(Debug, Clone, Copy)]
pub enum TunElevationStep {
    /// The outcome: `true` where the process is elevated and may go on,
    /// `false` where an elevated instance took its place.
    Done(Result<bool, ElevationError>),
    /// Start an elevated instance, then report how that went to
    /// `tun_relaunch_finished`.
    Relaunch,
}

/// The elevation check before a TUN device is created: `Ok(true)` where the
/// process is elevated, the error where the check failed, and otherwise a
/// relaunch.
pub fn ensure_elevated_for_tun(elevated: Result<bool, ElevationError>) -> (step: TunElevationStep)
    ensures
        step == (match elevated {
            Ok(true) => TunElevationStep::Done(Ok(true)),
            Ok(false) => TunElevationStep::Relaunch,
            Err(e) => TunElevationStep::Done(Err(e)),
        }),
{
    match ensure_windows_elevated(elevated) {
        ElevationStep::Done(Ok(_)) => TunElevationStep::Done(Ok(true)),
        ElevationStep::Done(Err(e)) => TunElevationStep::Done(Err(e)),
        ElevationStep::Relaunch => TunElevationStep::Relaunch,
    }
}

/// The outcome of the elevation check before a TUN device is created, once
/// the elevated instance was started (`Ok(false)`: this process must stop) or
/// failed to start.
pub fn tun_relaunch_finished(relaunch: Result<(), ElevationError>) -> (outcome: Result<bool, ElevationError>)
    ensures
        outcome == (match relaunch {
            Ok(()) => Ok(false),
            Err(e) => Err::<bool, ElevationError>(e),
        }),
{
    match relaunch_finished(relaunch) {
        Ok(_) => Ok(false),
        Err(e) => Err(e),
    }
}

/// The parameters of the elevated instance: the command line of the
/// arguments as a wide string, or none where there are no arguments.
pub fn relaunch_parameters(args: &Vec<String>) -> (params: Option<Vec<u16>>)
    ensures
        joined_args(string_views(args@)).len() == 0 ==> params is None,
        joined_args(string_views(args@)).len() != 0 ==> (params matches Some(w) && w@
            == utf16_encode(joined_args(string_views(args@))).push(0u16)),
{
    let line = join_windows_args(args);
    if line.as_str().unicode_len() == 0 {
        None
    } else {
        Some(wide_from_str(line.as_str()))
    }
}

/// `ShellExecuteW` reports success with a value above 32; the relaunch failed
/// with any other.
pub fn shell_execute_outcome(code: isize) -> (outcome: Result<(), ElevationError>)
    ensures
        code > 32 ==> outcome is Ok,
        code <= 32 ==> outcome == Err::<(), ElevationError>(ElevationError::ShellExecuteFailed(code)),
{
    if code <= 32 {
        Err(ElevationError::ShellExecuteFailed(code))
    } else {
        Ok(())
    }
}


/// Splits a command line into arguments as the Microsoft C runtime does.
/// The state is: the arguments read so far (`done`), the argument being read
/// (`cur`) and whether one is being read at all (`in_arg`), whether a quoted
/// region is open (`in_quotes`), and how many backslashes were read and not
/// yet placed (`pending`).  Outside a quoted region a space or a tab ends the
/// argument.  Before a double quote, 2n backslashes give n backslashes and the
/// quote opens or closes a quoted region; 2n + 1 backslashes give n
/// backslashes and a literal quote.  Inside a quoted region two double quotes
/// give one literal quote.  Backslashes before any other character are
/// literal.
pub open spec fn split_from(
    t: Seq<char>,
    done: Seq<Seq<char>>,
    cur: Seq<char>,
    in_arg: bool,
    in_quotes: bool,
    pending: nat,
) -> Seq<Seq<char>>
    decreases t.len(),
{
    if t.len() == 0 {
        if in_arg {
            done.push(cur + backslashes(pending))
        } else {
            done
        }
    } else {
        let c = t[0];
        let rest = t.drop_first();
        if c == '\\' {
            split_from(rest, done, cur, true, in_quotes, pending + 1)
        } else if c == '"' {
            if pending % 2 == 1 {
                split_from(rest, done, (cur + backslashes(pending / 2)).push('"'), true, in_quotes, 0)
            } else if in_quotes && rest.len() > 0 && rest[0] == '"' {
                split_from(rest.drop_first(), done, (cur + backslashes(pending / 2)).push('"'), true, true, 0)
            } else {
                split_from(rest, done, cur + backslashes(pending / 2), true, !in_quotes, 0)
            }
        } else if (c == ' ' || c == '\t') && !in_quotes {
            if in_arg {
                split_from(rest, done.push(cur + backslashes(pending)), seq![], false, false, 0)
            } else {
                split_from(rest, done, seq![], false, false, 0)
            }
        } else {
            split_from(rest, done, (cur + backslashes(pending)).push(c), true, in_quotes, 0)
        }
    }
}

/// The arguments that the Microsoft C runtime reads from a command line.
pub open spec fn split_windows_args(t: Seq<char>) -> Seq<Seq<char>> {
    split_from(t, seq![], seq![], false, false, 0)
}

/// Whether `t` is empty or starts with a space: what may follow an argument.
pub open spec fn at_arg_end(t: Seq<char>) -> bool {
    t.len() == 0 || t[0] == ' '
}

proof fn lemma_backslashes_step(n: nat)
    ensures
        backslashes(n + 1) =~= backslashes(n).push('\\'),
        backslashes(n + 1) =~= seq!['\\'] + backslashes(n),
{
}

/// Reading `k` backslashes only adds them to those pending.
proof fn lemma_read_backslashes(
    k: nat,
    t: Seq<char>,
    done: Seq<Seq<char>>,
    cur: Seq<char>,
    in_quotes: bool,
    pending: nat,
)
    ensures
        split_from(backslashes(k) + t, done, cur, true, in_quotes, pending)
            == split_from(t, done, cur, true, in_quotes, pending + k),
    decreases k,
{
    if k > 0 {
        let k1 = (k - 1) as nat;
        lemma_backslashes_step(k1);
        let u = backslashes(k) + t;
        assert(u[0] == '\\');
        assert(u.drop_first() =~= backslashes(k1) + t);
        lemma_read_backslashes(k1, t, done, cur, in_quotes, pending + 1);
    } else {
        assert(backslashes(0) + t =~= t);
    }
}

/// At the end of an argument, pending backslashes are placed as they are.
proof fn lemma_flush_at_end(
    t: Seq<char>,
    done: Seq<Seq<char>>,
    cur: Seq<char>,
    pending: nat,
)
    requires
        at_arg_end(t),
    ensures
        split_from(t, done, cur, true, false, pending) == split_from(
            t,
            done,
            cur + backslashes(pending),
            true,
            false,
            0,
        ),
{
    assert(cur + backslashes(pending) + backslashes(0) =~= cur + backslashes(pending));
}

/// Characters other than space, tab and double quote are read back as they are.
proof fn lemma_read_plain(
    s: Seq<char>,
    t: Seq<char>,
    done: Seq<Seq<char>>,
    cur: Seq<char>,
    in_arg: bool,
    pending: nat,
)
    requires
        !needs_quotes(s),
        s.len() > 0 || in_arg,
        at_arg_end(t),
    ensures
        split_from(s + t, done, cur, in_arg, false, pending) == split_from(
            t,
            done,
            cur + backslashes(pending) + s,
            true,
            false,
            0,
        ),
    decreases s.len(),
{
    if s.len() == 0 {
        assert(s + t =~= t);
        assert(cur + backslashes(pending) + s =~= cur + backslashes(pending));
        lemma_flush_at_end(t, done, cur, pending);
    } else {
        let u = s + t;
        let s1 = s.drop_first();
        assert(u[0] == s[0]);
        assert(u.drop_first() =~= s1 + t);
        assert(!needs_quotes(s1)) by {
            if s1.contains(' ') || s1.contains('\t') || s1.contains('"') {
                let j = choose|j: int| 0 <= j < s1.len() && (s1[j] == ' ' || s1[j] == '\t' || s1[j] == '"');
                assert(s[j + 1] == s1[j]);
            }
        }
        assert(s[0] != ' ' && s[0] != '\t' && s[0] != '"') by {
            assert(s.contains(s[0]));
        }
        if s[0] == '\\' {
            lemma_read_plain(s1, t, done, cur, true, pending + 1);
            lemma_backslashes_step(pending);
            assert(cur + backslashes(pending + 1) + s1 =~= cur + backslashes(pending) + s);
        } else {
            let cur1 = (cur + backslashes(pending)).push(s[0]);
            lemma_read_plain(s1, t, done, cur1, true, 0);
            assert(cur1 + backslashes(0) + s1 =~= cur + backslashes(pending) + s);
        }
    }
}

/// The body of a quoted argument is read back as the argument, with the
/// backslashes pending before it.
proof fn lemma_read_quoted_rest(
    s: Seq<char>,
    p: nat,
    t: Seq<char>,
    done: Seq<Seq<char>>,
    cur: Seq<char>,
)
    requires
        at_arg_end(t),
    ensures
        split_from(quoted_rest(s, p) + t, done, cur, true, true, 0) == split_from(
            t,
            done,
            cur + backslashes(p) + s,
            true,
            false,
            0,
        ),
    decreases s.len(),
{
    if s.len() == 0 {
        let q = quoted_rest(s, p);
        assert(q == backslashes(2 * p).push('"'));
        assert(q + t =~= backslashes(2 * p) + (seq!['"'] + t));
        lemma_read_backslashes(2 * p, seq!['"'] + t, done, cur, true, 0);
        let u = seq!['"'] + t;
        assert(u[0] == '"');
        assert(u.drop_first() =~= t);
        assert((0 + 2 * p) as nat % 2 == 0);
        assert((0 + 2 * p) as nat / 2 == p);
        assert(cur + backslashes(p) + s =~= cur + backslashes(p));
        assert(cur + backslashes(p) + backslashes(0) =~= cur + backslashes(p));
    } else {
        let s1 = s.drop_first();
        if s[0] == '\\' {
            lemma_read_quoted_rest(s1, p + 1, t, done, cur);
            lemma_backslashes_step(p);
            assert(cur + backslashes(p + 1) + s1 =~= cur + backslashes(p) + s);
        } else if s[0] == '"' {
            let rest = quoted_rest(s1, 0);
            let q = quoted_rest(s, p);
            assert(q == backslashes(2 * p + 1).push('"') + rest);
            assert(q + t =~= backslashes(2 * p + 1) + (seq!['"'] + (rest + t)));
            lemma_read_backslashes(2 * p + 1, seq!['"'] + (rest + t), done, cur, true, 0);
            let u = seq!['"'] + (rest + t);
            assert(u[0] == '"');
            assert(u.drop_first() =~= rest + t);
            assert((0 + (2 * p + 1)) as nat % 2 == 1);
            assert((0 + (2 * p + 1)) as nat / 2 == p);
            let cur1 = (cur + backslashes(p)).push('"');
            lemma_read_quoted_rest(s1, 0, t, done, cur1);
            assert(cur1 + backslashes(0) + s1 =~= cur + backslashes(p) + s);
        } else {
            let c = s[0];
            let rest = quoted_rest(s1, 0);
            let q = quoted_rest(s, p);
            assert(q == backslashes(p).push(c) + rest);
            assert(q + t =~= backslashes(p) + (seq![c] + (rest + t)));
            lemma_read_backslashes(p, seq![c] + (rest + t), done, cur, true, 0);
            let u = seq![c] + (rest + t);
            assert(u[0] == c);
            assert(u.drop_first() =~= rest + t);
            assert(0 + p == p);
            let cur1 = (cur + backslashes(p)).push(c);
            lemma_read_quoted_rest(s1, 0, t, done, cur1);
            assert(cur1 + backslashes(0) + s1 =~= cur + backslashes(p) + s);
        }
    }
}

/// One written argument is read back as the argument.
proof fn lemma_read_quoted_arg(a: Seq<char>, t: Seq<char>, done: Seq<Seq<char>>)
    requires
        at_arg_end(t),
    ensures
        split_from(quoted_arg(a) + t, done, seq![], false, false, 0) == split_from(
            t,
            done,
            a,
            true,
            false,
            0,
        ),
{
    if a.len() == 0 {
        let u = seq!['"', '"'] + t;
        assert(u[0] == '"');
        let u1 = u.drop_first();
        assert(u1 =~= seq!['"'] + t);
        assert(u1[0] == '"');
        assert(u1.drop_first() =~= t);
        let e = Seq::<char>::empty();
        assert(e + backslashes(0) =~= e);
        assert(split_from(u, done, e, false, false, 0) == split_from(u1, done, e + backslashes(0), true, true, 0));
        assert(!(u1.drop_first().len() > 0 && u1.drop_first()[0] == '"'));
        assert(split_from(u1, done, e, true, true, 0) == split_from(t, done, e + backslashes(0), true, false, 0));
        assert(a =~= e);
    } else if !needs_quotes(a) {
        lemma_read_plain(a, t, done, seq![], false, 0);
        assert(seq![] + backslashes(0) + a =~= a);
    } else {
        let u = seq!['"'] + (quoted_rest(a, 0) + t);
        assert(quoted_arg(a) + t =~= u);
        assert(u[0] == '"');
        assert(u.drop_first() =~= quoted_rest(a, 0) + t);
        assert(seq![] + backslashes(0) =~= Seq::<char>::empty());
        lemma_read_quoted_rest(a, 0, t, done, seq![]);
        assert(Seq::<char>::empty() + backslashes(0) + a =~= a);
    }
}

proof fn lemma_join_front(parts: Seq<Seq<char>>, sep: char)
    requires
        parts.len() >= 2,
    ensures
        join_chars(parts, sep) == parts[0] + (seq![sep] + join_chars(parts.drop_first(), sep)),
    decreases parts.len(),
{
    let dl = parts.drop_last();
    if parts.len() == 2 {
        assert(dl.len() == 1);
        assert(join_chars(dl, sep) == dl[0]);
        assert(parts.drop_first().len() == 1);
        assert(join_chars(parts.drop_first(), sep) == parts.drop_first()[0]);
        assert(join_chars(parts, sep) == join_chars(dl, sep).push(sep) + parts.last());
        assert(join_chars(parts, sep) =~= parts[0] + (seq![sep] + join_chars(parts.drop_first(), sep)));
    } else {
        lemma_join_front(dl, sep);
        assert(parts.drop_first().drop_last() =~= dl.drop_first());
        assert(join_chars(parts, sep) =~= parts[0] + (seq![sep] + join_chars(parts.drop_first(), sep)));
    }
}

proof fn lemma_split_joined(args: Seq<Seq<char>>, done: Seq<Seq<char>>)
    ensures
        split_from(joined_args(args), done, seq![], false, false, 0) == done + args,
    decreases args.len(),
{
    let parts = args.map_values(|a: Seq<char>| quoted_arg(a));
    if args.len() == 0 {
        assert(done + args =~= done);
    } else if args.len() == 1 {
        assert(joined_args(args) == quoted_arg(args[0]));
        assert(quoted_arg(args[0]) + Seq::<char>::empty() =~= quoted_arg(args[0]));
        lemma_read_quoted_arg(args[0], seq![], done);
        assert(args[0] + backslashes(0) =~= args[0]);
        assert(done.push(args[0]) =~= done + args);
    } else {
        let rest = args.drop_first();
        lemma_join_front(parts, ' ');
        assert(parts.drop_first() =~= rest.map_values(|a: Seq<char>| quoted_arg(a)));
        let t = seq![' '] + joined_args(rest);
        assert(joined_args(args) == quoted_arg(args[0]) + t);
        lemma_read_quoted_arg(args[0], t, done);
        assert(t[0] == ' ');
        assert(t.drop_first() =~= joined_args(rest));
        assert(args[0] + backslashes(0) =~= args[0]);
        lemma_split_joined(rest, done.push(args[0]));
        assert(done.push(args[0]) + rest =~= done + args);
    }
}

/// The command line that `join_windows_args` writes is split by the Windows
/// C runtime into exactly the arguments it was written from: the elevated
/// instance receives the arguments of the running process unchanged.
pub proof fn law_windows_args_round_trip(args: Seq<Seq<char>>)
    ensures
        split_windows_args(joined_args(args)) == args,
{
    lemma_split_joined(args, seq![]);
    assert(Seq::<Seq<char>>::empty() + args =~= args);
}

} // verus!
