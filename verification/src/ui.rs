//! Text helpers for rich embeds and messages: progress bars and timestamp tags.
use vstd::prelude::*;
use crate::text::{decimal, push_decimal, push_signed_decimal, push_str, signed_decimal, string_push};

verus! {

/// A text-based progress bar generator.
#[derive(Debug, Clone)]
pub struct ProgressBar {
    /// Total number of steps.
    pub length: u32,
    /// Character for the filled portion.
    pub filled_char: char,
    /// Character for the empty portion.
    pub empty_char: char,
    /// Character for the current position (head).
    pub head_char: Option<char>,
    /// Opening bracket/character.
    pub start_char: Option<String>,
    /// Closing bracket/character.
    pub end_char: Option<String>,
}

/// The text of an optional piece: empty when absent.
pub open spec fn opt_text(s: Option<String>) -> Seq<char> {
    match s {
        Some(t) => t@,
        None => Seq::empty(),
    }
}

/// The character of cell `i` of a bar with `filled` filled cells: the head sits on the
/// first unfilled cell, the filled character before it and the empty character after it.
pub open spec fn bar_cell(bar: ProgressBar, filled: int, i: int) -> char {
    if bar.head_char is Some && i == filled {
        bar.head_char.unwrap()
    } else if i < filled {
        bar.filled_char
    } else {
        bar.empty_char
    }
}

/// The text of a bar with `filled` filled cells (at most its length).
pub open spec fn bar_text(bar: ProgressBar, filled: int) -> Seq<char> {
    opt_text(bar.start_char) + Seq::new(bar.length as nat, |i: int| bar_cell(bar, filled, i)) + opt_text(
        bar.end_char,
    )
}

impl Default for ProgressBar {
    /// Ten steps of a bar line, with a round knob as the head.
    fn default() -> (r: Self)
        ensures
            r.length == 10,
            r.filled_char == '\u{25AC}',
            r.empty_char == '\u{25AC}',
            r.head_char == Some('\u{1F518}'),
            r.start_char is None,
            r.end_char is None,
    {
        ProgressBar {
            length: 10,
            filled_char: '\u{25AC}',
            empty_char: '\u{25AC}',
            head_char: Some('\u{1F518}'),
            start_char: None,
            end_char: None,
        }
    }
}

impl ProgressBar {
    /// Create a new default progress bar with specified length.
    pub fn new(length: u32) -> (r: Self)
        ensures
            r.length == length,
            r.filled_char == '\u{25AC}',
            r.empty_char == '\u{25AC}',
            r.head_char == Some('\u{1F518}'),
            r.start_char is None,
            r.end_char is None,
    {
        let mut bar = ProgressBar::default();
        bar.length = length;
        bar
    }

    /// Create a new "Pac-Man" style progress bar, e.g. `[------C o o o]`.
    pub fn pacman(length: u32) -> (r: Self)
        ensures
            r.length == length,
            r.filled_char == '-',
            r.empty_char == 'o',
            r.head_char == Some('C'),
            r.start_char matches Some(s) && s@ == "["@,
            r.end_char matches Some(e) && e@ == "]"@,
    {
        ProgressBar {
            length,
            filled_char: '-',
            empty_char: 'o',
            head_char: Some('C'),
            start_char: Some("[".to_owned()),
            end_char: Some("]".to_owned()),
        }
    }

    /// The bar with `filled_count` filled cells, at most its length.
    pub fn render(&self, filled_count: u32) -> (r: String)
        ensures
            r@ == bar_text(*self, if filled_count < self.length { filled_count as int } else { self.length as int }),
    {
        let filled: u32 = if filled_count < self.length { filled_count } else { self.length };
        let mut result = String::new();
        match &self.start_char {
            Some(s) => push_str(&mut result, s.as_str()),
            None => {},
        }
        let ghost prefix = result@;
        assert(prefix == opt_text(self.start_char));
        let ghost cells = Seq::new(self.length as nat, |i: int| bar_cell(*self, filled as int, i));
        let mut i: u32 = 0;
        while i < self.length
            invariant
                i <= self.length,
                cells == Seq::new(self.length as nat, |i: int| bar_cell(*self, filled as int, i)),
                result@ == prefix + cells.subrange(0, i as int),
            decreases self.length - i,
        {
            let c = match self.head_char {
                Some(head) => if i == filled {
                    head
                } else if i < filled {
                    self.filled_char
                } else {
                    self.empty_char
                },
                None => if i < filled {
                    self.filled_char
                } else {
                    self.empty_char
                },
            };
            assert(c == cells[i as int]);
            string_push(&mut result, c);
            assert(cells.subrange(0, i + 1) =~= cells.subrange(0, i as int).push(c));
            i = i + 1;
        }
        assert(cells.subrange(0, self.length as int) =~= cells);
        match &self.end_char {
            Some(e) => push_str(&mut result, e.as_str()),
            None => {},
        }
        assert(result@ =~= bar_text(*self, filled as int));
        result
    }
}

/// Discord Timestamp formatting styles.
#[derive(Debug, Clone, Copy, PartialEq, Eq, Structural)]
pub enum TimestampStyle {
    /// Short Time (e.g. 16:20)
    ShortTime,
    /// Long Time (e.g. 16:20:30)
    LongTime,
    /// Short Date (e.g. 20/04/2021)
    ShortDate,
    /// Long Date (e.g. 20 April 2021)
    LongDate,
    /// Short Date/Time (e.g. 20 April 2021 16:20)
    ShortDateTime,
    /// Long Date/Time (e.g. Tuesday, 20 April 2021 16:20)
    LongDateTime,
    /// Relative Time (e.g. 2 months ago)
    Relative,
}

/// The letter that selects a timestamp style.
pub open spec fn style_char(style: TimestampStyle) -> char {
    match style {
        TimestampStyle::ShortTime => 't',
        TimestampStyle::LongTime => 'T',
        TimestampStyle::ShortDate => 'd',
        TimestampStyle::LongDate => 'D',
        TimestampStyle::ShortDateTime => 'f',
        TimestampStyle::LongDateTime => 'F',
        TimestampStyle::Relative => 'R',
    }
}

/// Discord's style letters: `t`/`T` for short/long time, `d`/`D` for short/long date, `f`/`F`
/// for short/long date and time, `R` for relative. Each long style's letter is the capital of
/// its short style's letter, and no two styles share a letter.
pub proof fn lemma_style_letters()
    ensures
        style_char(TimestampStyle::ShortTime) == 't',
        style_char(TimestampStyle::ShortDate) == 'd',
        style_char(TimestampStyle::ShortDateTime) == 'f',
        style_char(TimestampStyle::Relative) == 'R',
        style_char(TimestampStyle::LongTime) as u32 + 32 == style_char(TimestampStyle::ShortTime) as u32,
        style_char(TimestampStyle::LongDate) as u32 + 32 == style_char(TimestampStyle::ShortDate) as u32,
        style_char(TimestampStyle::LongDateTime) as u32 + 32 == style_char(TimestampStyle::ShortDateTime) as u32,
        forall|a: TimestampStyle, b: TimestampStyle| style_char(a) == style_char(b) ==> a == b,
{
}

impl TimestampStyle {
    /// The letter that selects this style.
    pub fn as_char(&self) -> (r: char)
        ensures
            r == style_char(*self),
    {
        match self {
            TimestampStyle::ShortTime => 't',
            TimestampStyle::LongTime => 'T',
            TimestampStyle::ShortDate => 'd',
            TimestampStyle::LongDate => 'D',
            TimestampStyle::ShortDateTime => 'f',
            TimestampStyle::LongDateTime => 'F',
            TimestampStyle::Relative => 'R',
        }
    }
}

/// The timestamp tag `<t:SECONDS:STYLE>`.
pub open spec fn timestamp_tag(seconds: int, style: char) -> Seq<char> {
    "<t:"@ + signed_decimal(seconds) + seq![':', style, '>']
}

/// The relative timestamp tag for a Unix time in seconds.
pub open spec fn relative_tag(target: int) -> Seq<char> {
    "<t:"@ + decimal(target as nat) + seq![':', 'R', '>']
}

/// Calls `UNIX_EPOCH.elapsed()` (the time from the Unix epoch to the clock's reading) and
/// takes the whole seconds; `None` when the clock reads a time before the epoch. Nothing is
/// promised of the value: it is the clock's.
#[verifier::external_body]
fn unix_time_secs() -> (r: Option<u64>) {
    match std::time::UNIX_EPOCH.elapsed() {
        Ok(d) => Some(d.as_secs()),
        Err(_) => None,
    }
}

/// Helper for generating Discord timestamp strings.
pub struct Timestamp;

impl Timestamp {
    /// Create a Discord timestamp tag from unix seconds.
    pub fn from_unix(seconds: i64, style: TimestampStyle) -> (r: String)
        ensures
            r@ == timestamp_tag(seconds as int, style_char(style)),
    {
        let mut s = String::new();
        push_str(&mut s, "<t:");
        push_signed_decimal(&mut s, seconds);
        string_push(&mut s, ':');
        string_push(&mut s, style.as_char());
        string_push(&mut s, '>');
        assert(s@ =~= timestamp_tag(seconds as int, style_char(style)));
        s
    }

    /// A relative timestamp tag for `duration_secs` after `now_secs` (Unix seconds).
    pub fn expires_at(now_secs: u64, duration_secs: u64) -> (r: String)
        requires
            now_secs + duration_secs <= u64::MAX,
        ensures
            r@ == relative_tag(now_secs + duration_secs),
    {
        let target = now_secs + duration_secs;
        let mut s = String::new();
        push_str(&mut s, "<t:");
        push_decimal(&mut s, target);
        string_push(&mut s, ':');
        string_push(&mut s, 'R');
        string_push(&mut s, '>');
        assert(s@ =~= relative_tag(now_secs + duration_secs));
        s
    }

    /// A relative timestamp tag for `duration_secs` after `now_secs` (Unix seconds); `None`
    /// when the end lies beyond the range of a 64-bit count of seconds.
    pub fn expires_after(now_secs: u64, duration_secs: u64) -> (r: Option<String>)
        ensures
            r is Some <==> now_secs + duration_secs <= u64::MAX,
            r matches Some(s) ==> s@ == relative_tag(now_secs + duration_secs),
    {
        if now_secs > u64::MAX - duration_secs {
            None
        } else {
            Some(Self::expires_at(now_secs, duration_secs))
        }
    }

    /// A relative timestamp tag for `duration_secs` from now, e.g. for "Ends in...". `None`
    /// when the clock reads a time before the Unix epoch, or when the end lies beyond the
    /// range of a 64-bit count of seconds; otherwise what `expires_after` gives for the
    /// clock's reading.
    pub fn expires_in(duration_secs: u64) -> (r: Option<String>)
        ensures
            r matches Some(s) ==> exists|now: u64| now + duration_secs <= u64::MAX && #[trigger] relative_tag(
                now + duration_secs,
            ) == s@,
    {
        match unix_time_secs() {
            Some(now) => {
                let r = Self::expires_after(now, duration_secs);
                if let Some(s) = &r {
                    assert(relative_tag(now + duration_secs) == s@);
                }
                r
            },
            None => None,
        }
    }
}

} // verus!
