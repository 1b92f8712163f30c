//! What the indicator shows and plays for each event of the pipeline.

use vstd::prelude::*;
use crate::text::{chars_of, str_eq, string_of_range, string_views};
use crate::text_injection::{CommandSpec, ToolCommand};
use crate::whisper::api_client::concat;

verus! {

/// The longest text that a notice shows in full, in bytes of UTF-8.
pub const PREVIEW_BYTES: usize = 50;

/// Says what the pipeline is doing.
#[derive(Debug, Clone, Copy, PartialEq, Eq, Structural)]
pub struct Indicator {
    audio_feedback_enabled: bool,
}

/// What is shown, and the sound that is played with it, if any.
#[derive(Debug, PartialEq, Eq)]
pub struct Notice {
    pub title: String,
    pub sound: Option<String>,
}

/// The number of bytes that `c` takes in UTF-8.
pub open spec fn utf8_len(c: char) -> int {
    let u = c as u32;
    if u < 0x80 {
        1
    } else if u < 0x800 {
        2
    } else if u < 0x10000 {
        3
    } else {
        4
    }
}

/// The number of bytes that `s` takes in UTF-8.
pub open spec fn utf8_len_of(s: Seq<char>) -> int
    decreases s.len(),
{
    if s.len() == 0 {
        0
    } else {
        utf8_len_of(s.drop_last()) + utf8_len(s.last())
    }
}

/// The number of characters in the longest prefix of `s` that takes at most
/// `limit` bytes in UTF-8.
pub open spec fn chars_within(s: Seq<char>, limit: int) -> int
    decreases s.len(),
{
    if s.len() == 0 || utf8_len_of(s) <= limit {
        s.len() as int
    } else {
        chars_within(s.drop_last(), limit)
    }
}

/// The text as a notice shows it: whole if it takes no more bytes than a
/// notice shows in full, else its longest beginning of whole characters that
/// takes no more, and an ellipsis.
pub open spec fn preview_spec(text: Seq<char>) -> Seq<char> {
    if utf8_len_of(text) > PREVIEW_BYTES {
        text.take(chars_within(text, PREVIEW_BYTES as int)) + "..."@
    } else {
        text
    }
}

/// A prefix takes no more bytes than the whole.
pub proof fn lemma_utf8_len_prefix(s: Seq<char>, k: int)
    requires
        0 <= k <= s.len(),
    ensures
        0 <= utf8_len_of(s.take(k)) <= utf8_len_of(s),
    decreases s.len(),
{
    if k == s.len() {
        assert(s.take(k) == s);
        if s.len() > 0 {
            lemma_utf8_len_prefix(s.drop_last(), k - 1);
        }
    } else {
        assert(s.drop_last().take(k) == s.take(k));
        lemma_utf8_len_prefix(s.drop_last(), k);
    }
}

/// The prefix that `chars_within` counts fits the limit, and no longer prefix
/// does.
pub proof fn lemma_chars_within_is_longest(s: Seq<char>, limit: int)
    requires
        0 <= limit,
    ensures
        0 <= chars_within(s, limit) <= s.len(),
        utf8_len_of(s.take(chars_within(s, limit))) <= limit,
        forall|j: int|
            chars_within(s, limit) < j <= s.len() ==> utf8_len_of(#[trigger] s.take(j)) > limit,
    decreases s.len(),
{
    if s.len() == 0 || utf8_len_of(s) <= limit {
        assert(s.take(s.len() as int) == s);
    } else {
        let t = s.drop_last();
        lemma_chars_within_is_longest(t, limit);
        let k = chars_within(t, limit);
        assert(t.take(k) == s.take(k));
        assert forall|j: int| k < j <= s.len() implies utf8_len_of(#[trigger] s.take(j))
            > limit by {
            if j == s.len() {
                assert(s.take(j) == s);
            } else {
                assert(t.take(j) == s.take(j));
            }
        }
    }
}

/// Where the first `k` characters fit the limit and one more does not, the
/// longest prefix that fits has `k` characters, and the whole does not fit.
pub proof fn lemma_chars_within(s: Seq<char>, limit: int, k: int)
    requires
        0 <= k < s.len(),
        utf8_len_of(s.take(k)) <= limit,
        utf8_len_of(s.take(k + 1)) > limit,
    ensures
        chars_within(s, limit) == k,
        utf8_len_of(s) > limit,
    decreases s.len(),
{
    lemma_utf8_len_prefix(s, k + 1);
    let t = s.drop_last();
    if k + 1 == s.len() {
        assert(s.take(k + 1) == s);
        assert(t == s.take(k));
        assert(chars_within(t, limit) == t.len());
    } else {
        assert(t.take(k) == s.take(k));
        assert(t.take(k + 1) == s.take(k + 1));
        lemma_chars_within(t, limit, k);
    }
    assert(chars_within(s, limit) == chars_within(t, limit));
}

/// Pitch in hertz and length in milliseconds of the tone for a sound.
pub open spec fn tone_spec(sound: Seq<char>) -> (u32, u32) {
    if sound == "start"@ {
        (800, 150)
    } else if sound == "stop"@ {
        (400, 200)
    } else if sound == "complete"@ {
        (1000, 100)
    } else {
        (500, 150)
    }
}

/// The command that shows `title` as a desktop notification.
pub open spec fn notify_command_spec(title: Seq<char>) -> CommandSpec {
    CommandSpec {
        program: "hyprctl"@,
        args: seq!["notify"@, "-1"@, "3000"@, "rgb(ff1744)"@, title],
        stdin: None,
    }
}

/// The number of bytes that `c` takes in UTF-8.
pub fn char_utf8_len(c: char) -> (r: usize)
    ensures
        r == utf8_len(c),
{
    let u: u32 = c as u32;
    if u < 0x80 {
        1
    } else if u < 0x800 {
        2
    } else if u < 0x10000 {
        3
    } else {
        4
    }
}

/// The text as a notice shows it.
pub fn preview(text: &str) -> (r: String)
    ensures
        r@ == preview_spec(text@),
{
    let chars = chars_of(text);
    let n = chars.len();
    let mut i: usize = 0;
    let mut used: usize = 0;
    assert(chars@.take(0) == Seq::<char>::empty());
    while i < n
        invariant
            i <= n == chars.len(),
            chars@ == text@,
            used == utf8_len_of(chars@.take(i as int)),
            used <= PREVIEW_BYTES,
        decreases n - i,
    {
        let width = char_utf8_len(chars[i]);
        proof {
            assert(chars@.take(i + 1).drop_last() == chars@.take(i as int));
            assert(chars@.take(i + 1).last() == chars@[i as int]);
        }
        if used + width > PREVIEW_BYTES {
            proof {
                lemma_chars_within(chars@, PREVIEW_BYTES as int, i as int);
                assert(chars@.subrange(0, i as int) == chars@.take(i as int));
            }
            let head = string_of_range(&chars, 0, i);
            return concat(head.as_str(), "...");
        }
        used += width;
        i += 1;
    }
    assert(chars@.take(n as int) == chars@);
    text.to_owned()
}

/// Pitch in hertz and length in milliseconds of the tone for a sound.
pub fn tone_for(sound: &str) -> (r: (u32, u32))
    ensures
        r == tone_spec(sound@),
{
    if str_eq(sound, "start") {
        (800, 150)
    } else if str_eq(sound, "stop") {
        (400, 200)
    } else if str_eq(sound, "complete") {
        (1000, 100)
    } else {
        (500, 150)
    }
}

/// The command that shows `title` as a desktop notification.
pub fn hyprland_notify(title: &str) -> (r: ToolCommand)
    ensures
        r@ == notify_command_spec(title@),
{
    let mut args: Vec<String> = Vec::new();
    args.push("notify".to_owned());
    args.push("-1".to_owned());
    args.push("3000".to_owned());
    args.push("rgb(ff1744)".to_owned());
    args.push(title.to_owned());
    assert(string_views(args@) =~= notify_command_spec(title@).args);
    ToolCommand { program: "hyprctl".to_owned(), args, stdin: None }
}

impl Indicator {
    /// Whether sounds are played.
    pub closed spec fn audio_feedback(&self) -> bool {
        self.audio_feedback_enabled
    }

    /// The sound called `name` where sounds are played, else none.
    pub open spec fn sound_spec(&self, name: Seq<char>) -> Option<Seq<char>> {
        if self.audio_feedback() {
            Some(name)
        } else {
            None
        }
    }

    /// An indicator that plays sounds.
    pub fn new() -> (r: Self)
        ensures
            r.audio_feedback(),
    {
        Indicator { audio_feedback_enabled: true }
    }

    /// The indicator with sounds switched on or off.
    pub fn with_audio_feedback(self, enabled: bool) -> (r: Self)
        ensures
            r.audio_feedback() == enabled,
    {
        Indicator { audio_feedback_enabled: enabled }
    }

    fn notice(&self, title: String, sound: &str) -> (r: Notice)
        ensures
            r.title@ == title@,
            crate::text::opt_view(r.sound) == self.sound_spec(sound@),
    {
        let sound = if self.audio_feedback_enabled {
            Some(sound.to_owned())
        } else {
            None
        };
        Notice { title, sound }
    }

    /// The notice that a recording has begun.
    pub fn show_recording(&self) -> (r: Notice)
        ensures
            r.title@ == "\u{1F534} Recording..."@,
            crate::text::opt_view(r.sound) == self.sound_spec("start"@),
    {
        self.notice("\u{1F534} Recording...".to_owned(), "start")
    }

    /// The notice that a recording is being transcribed.
    pub fn show_processing(&self) -> (r: Notice)
        ensures
            r.title@ == "\u{23F3}Processing..."@,
            crate::text::opt_view(r.sound) == self.sound_spec("stop"@),
    {
        self.notice("\u{23F3}Processing...".to_owned(), "stop")
    }

    /// The notice that `text` was transcribed.
    pub fn show_complete(&self, text: &str) -> (r: Notice)
        ensures
            r.title@ == "\u{2705} "@ + preview_spec(text@),
            crate::text::opt_view(r.sound) == self.sound_spec("complete"@),
    {
        let shown = preview(text);
        self.notice(concat("\u{2705} ", shown.as_str()), "complete")
    }

    /// The notice of a failure; no sound goes with it.
    pub fn show_error(&self, error: &str) -> (r: Notice)
        ensures
            r.title@ == "Error: "@ + error@,
            r.sound is None,
    {
        Notice { title: concat("Error: ", error), sound: None }
    }
}

} // verus!
