//! Normalization of raw transcripts: one strategy per output dialect of the
//! transcription backends.

use vstd::prelude::*;
use vstd::string::StringExecFns;
use regex::Regex;
use crate::text::{
    chars_of, is_trimmed, is_whitespace, lemma_trim_idempotent, lemma_trim_of_trimmed, lines_spec,
    split_lines, str_eq, string_views, trim, trim_spec,
};

verus! {

/// The compiled regular expression of the `regex` crate.
#[verifier::external_type_specification]
#[verifier::external_body]
pub struct ExRegex(regex::Regex);

/// The error that `Regex::new` gives for a pattern it does not accept.
#[verifier::external_type_specification]
#[verifier::external_body]
pub struct ExRegexError(regex::Error);

/// Whether `Regex::new` accepts `pattern`.
pub uninterp spec fn regex_compiles(pattern: Seq<char>) -> bool;

/// The pattern that a compiled expression was made from (`Regex::as_str`).
pub uninterp spec fn regex_source(re: Regex) -> Seq<char>;

/// What `Regex::replace_all` returns for an expression compiled from
/// `pattern`: `haystack` with every non-overlapping match replaced by the
/// expansion of `replacement`.
pub uninterp spec fn regex_replace_all(
    pattern: Seq<char>,
    haystack: Seq<char>,
    replacement: Seq<char>,
) -> Seq<char>;

/// `Regex::new`: compiles `pattern` with the default size limit. Whether it
/// succeeds depends on the pattern alone, and the compiled expression
/// remembers the pattern it was made from.
#[verifier::external_body]
fn compile(pattern: &str) -> (r: Result<Regex, regex::Error>)
    ensures
        r is Ok == regex_compiles(pattern@),
        r matches Ok(re) ==> regex_source(re) == pattern@,
{
    Regex::new(pattern)
}

/// `Regex::replace_all`: the result depends on the expression's pattern, the
/// haystack and the replacement alone. This holds of expressions that
/// `compile` made, with the default options of `Regex::new`, and the wrapper
/// is for those only: the one expression that reaches it is the field that
/// `with_pattern` fills from `compile`.
#[verifier::external_body]
fn replace_all(re: &Regex, haystack: &str, replacement: &str) -> (r: String)
    ensures
        r@ == regex_replace_all(regex_source(*re), haystack@, replacement@),
{
    re.replace_all(haystack, replacement).into_owned()
}

/// A pattern that could not be compiled.
#[derive(Debug, Clone, Copy, PartialEq, Eq, Structural)]
pub enum NormalizerError {
    InvalidPattern,
}

/// The pattern of a timestamp range marker at the start of a line:
/// `[HH:MM:SS.mmm --> HH:MM:SS.mmm]`, the milliseconds set off by a dot or a
/// colon, with the whitespace that follows the bracket.
pub open spec fn timestamp_pattern_spec() -> Seq<char> {
    r"^\[\d{2}:\d{2}:\d{2}[:.]\d{3}\s*-->\s*\d{2}:\d{2}:\d{2}[:.]\d{3}\]\s*"@
}

/// The pattern of a timestamp range marker at the start of a line.
pub fn timestamp_pattern() -> (r: &'static str)
    ensures
        r@ == timestamp_pattern_spec(),
{
    r"^\[\d{2}:\d{2}:\d{2}[:.]\d{3}\s*-->\s*\d{2}:\d{2}:\d{2}[:.]\d{3}\]\s*"
}

/// The trimmed, non-empty pieces of `parts`, joined by single spaces.
pub open spec fn join_words(parts: Seq<Seq<char>>) -> Seq<char>
    decreases parts.len(),
{
    if parts.len() == 0 {
        Seq::empty()
    } else {
        let head = join_words(parts.drop_last());
        let word = trim_spec(parts.last());
        if word.len() == 0 {
            head
        } else if head.len() == 0 {
            word
        } else {
            head.push(' ') + word
        }
    }
}

/// Each line of `lines` with the matches of `pattern` removed.
pub open spec fn strip_lines(pattern: Seq<char>, lines: Seq<Seq<char>>) -> Seq<Seq<char>> {
    lines.map_values(|line: Seq<char>| regex_replace_all(pattern, line, ""@))
}

/// The normal form of a transcript that marks its lines with timestamps: the
/// markers removed from each line, the lines trimmed, the empty ones dropped,
/// the rest joined by single spaces.
pub open spec fn strip_and_join(pattern: Seq<char>, raw: Seq<char>) -> Seq<char> {
    trim_spec(join_words(strip_lines(pattern, lines_spec(raw))))
}

/// A text on one line, without surrounding whitespace, that the removal of
/// the matches of `pattern` leaves as it is.
pub open spec fn is_clean(pattern: Seq<char>, text: Seq<char>) -> bool {
    &&& is_trimmed(text)
    &&& forall|i: int| 0 <= i < text.len() ==> text[i] != '\n'
    &&& regex_replace_all(pattern, text, ""@) == text
}

/// Joined words neither start nor end with whitespace.
pub proof fn lemma_join_words_trimmed(parts: Seq<Seq<char>>)
    ensures
        is_trimmed(join_words(parts)),
    decreases parts.len(),
{
    if parts.len() > 0 {
        lemma_join_words_trimmed(parts.drop_last());
        lemma_trim_idempotent(parts.last());
        let head = join_words(parts.drop_last());
        let word = trim_spec(parts.last());
        if word.len() > 0 && head.len() > 0 {
            let j = head.push(' ') + word;
            assert(j[0] == head[0]);
            assert(j.last() == word.last());
        }
    }
}

/// Normalizing a clean text returns it unchanged, so normalizing twice gives
/// what normalizing once gives.
pub proof fn lemma_clean_text_is_fixed(pattern: Seq<char>, text: Seq<char>)
    requires
        is_clean(pattern, text),
    ensures
        strip_and_join(pattern, text) == text,
        strip_and_join(pattern, strip_and_join(pattern, text)) == strip_and_join(pattern, text),
{
    if text.len() == 0 {
        assert(lines_spec(text) == Seq::<Seq<char>>::empty());
        assert(strip_lines(pattern, lines_spec(text)) == Seq::<Seq<char>>::empty());
    } else {
        crate::text::lemma_first_newline_is(text, text.len() as int);
        assert(lines_spec(text) == seq![text]);
        let stripped = strip_lines(pattern, lines_spec(text));
        assert(stripped == seq![text]);
        assert(stripped.drop_last() == Seq::<Seq<char>>::empty());
        assert(stripped.last() == text);
        lemma_trim_of_trimmed(text);
        assert(join_words(stripped.drop_last()) == Seq::<char>::empty());
        assert(join_words(stripped) == text);
    }
    lemma_trim_of_trimmed(text);
}

/// The trimmed, non-empty pieces of `parts`, joined by single spaces.
pub fn join_trimmed(parts: &Vec<String>) -> (r: String)
    ensures
        r@ == trim_spec(join_words(string_views(parts@))),
        r@ == join_words(string_views(parts@)),
{
    let mut cleaned = String::new();
    let mut i: usize = 0;
    assert(string_views(parts@).take(0) == Seq::<Seq<char>>::empty());
    while i < parts.len()
        invariant
            i <= parts.len(),
            cleaned@ == join_words(string_views(parts@).take(i as int)),
        decreases parts.len() - i,
    {
        let word = trim(parts[i].as_str());
        proof {
            let all = string_views(parts@);
            assert(all.take(i + 1).drop_last() == all.take(i as int));
            assert(all.take(i + 1).last() == parts@[i as int]@);
        }
        if !word.as_str().is_empty() {
            if !cleaned.as_str().is_empty() {
                cleaned.push(' ');
            }
            cleaned.append(word.as_str());
        }
        i += 1;
    }
    proof {
        assert(string_views(parts@).take(parts.len() as int) == string_views(parts@));
        lemma_join_words_trimmed(string_views(parts@));
        lemma_trim_of_trimmed(cleaned@);
    }
    trim(cleaned.as_str())
}

/// A strategy that turns the raw output of a transcription backend into
/// clean text.
pub trait TranscriptionNormalizer {
    /// The clean text for `raw`.
    spec fn normalized(&self, raw: Seq<char>) -> Seq<char>;

    /// The name of the strategy.
    spec fn name_spec(&self) -> Seq<char>;

    fn normalize(&self, raw_output: &str) -> (r: String)
        ensures
            r@ == self.normalized(raw_output@),
    ;

    fn name(&self) -> (r: &'static str)
        ensures
            r@ == self.name_spec(),
    ;
}

/// The strategy for backends that print a timestamp range in front of each
/// line.
pub struct WhisperCppNormalizer {
    timestamp_regex: Regex,
}

impl WhisperCppNormalizer {
    /// The pattern whose matches this normalizer removes.
    pub closed spec fn pattern(&self) -> Seq<char> {
        regex_source(self.timestamp_regex)
    }

    /// The normalizer that removes timestamp range markers.
    pub fn new() -> (r: Result<Self, NormalizerError>)
        ensures
            r is Ok == regex_compiles(timestamp_pattern_spec()),
            r matches Ok(n) ==> n.pattern() == timestamp_pattern_spec(),
            r matches Err(e) ==> e == NormalizerError::InvalidPattern,
    {
        Self::with_pattern(timestamp_pattern())
    }

    /// The normalizer that removes the matches of `pattern`, where `pattern`
    /// is a regular expression.
    pub fn with_pattern(pattern: &str) -> (r: Result<Self, NormalizerError>)
        ensures
            r is Ok == regex_compiles(pattern@),
            r matches Ok(n) ==> n.pattern() == pattern@,
            r matches Err(e) ==> e == NormalizerError::InvalidPattern,
    {
        match compile(pattern) {
            Ok(timestamp_regex) => Ok(WhisperCppNormalizer { timestamp_regex }),
            Err(_) => Err(NormalizerError::InvalidPattern),
        }
    }

    /// Whether `text` is clean: on one line, without surrounding whitespace,
    /// and left as it is by the removal of the matches of the pattern.
    pub fn is_clean_text(&self, text: &str) -> (r: bool)
        ensures
            r == is_clean(self.pattern(), text@),
    {
        let chars = chars_of(text);
        let n = chars.len();
        if n > 0 && (is_whitespace(chars[0]) || is_whitespace(chars[n - 1])) {
            return false;
        }
        let mut i: usize = 0;
        while i < n
            invariant
                i <= n == chars.len(),
                chars@ == text@,
                forall|k: int| 0 <= k < i ==> chars@[k] != '\n',
            decreases n - i,
        {
            if chars[i] == '\n' {
                return false;
            }
            i += 1;
        }
        let stripped = replace_all(&self.timestamp_regex, text, "");
        str_eq(stripped.as_str(), text)
    }

    /// Each line with the timestamp markers removed.
    pub fn strip_markers(&self, lines: &Vec<String>) -> (r: Vec<String>)
        ensures
            string_views(r@) == strip_lines(self.pattern(), string_views(lines@)),
    {
        let mut out: Vec<String> = Vec::new();
        let mut i: usize = 0;
        while i < lines.len()
            invariant
                i <= lines.len(),
                string_views(out@) == strip_lines(self.pattern(), string_views(lines@)).take(
                    i as int,
                ),
            decreases lines.len() - i,
        {
            let stripped = replace_all(&self.timestamp_regex, lines[i].as_str(), "");
            proof {
                let all = strip_lines(self.pattern(), string_views(lines@));
                assert(all.take(i + 1) == all.take(i as int).push(all[i as int]));
                assert(string_views(out@.push(stripped)) == string_views(out@).push(stripped@));
            }
            out.push(stripped);
            i += 1;
        }
        proof {
            let all = strip_lines(self.pattern(), string_views(lines@));
            assert(all.take(lines.len() as int) == all);
        }
        out
    }
}

impl TranscriptionNormalizer for WhisperCppNormalizer {
    open spec fn normalized(&self, raw: Seq<char>) -> Seq<char> {
        strip_and_join(self.pattern(), raw)
    }

    open spec fn name_spec(&self) -> Seq<char> {
        "WhisperCppNormalizer"@
    }

    fn normalize(&self, raw_output: &str) -> (r: String) {
        let lines = split_lines(raw_output);
        let stripped = self.strip_markers(&lines);
        join_trimmed(&stripped)
    }

    fn name(&self) -> (r: &'static str) {
        "WhisperCppNormalizer"
    }
}

/// The strategy for backends whose output is clean but for surrounding
/// whitespace.
pub struct OpenAIWhisperNormalizer;

impl OpenAIWhisperNormalizer {
    pub fn new() -> (r: Self) {
        OpenAIWhisperNormalizer
    }
}

impl TranscriptionNormalizer for OpenAIWhisperNormalizer {
    open spec fn normalized(&self, raw: Seq<char>) -> Seq<char> {
        trim_spec(raw)
    }

    open spec fn name_spec(&self) -> Seq<char> {
        "OpenAIWhisperNormalizer"@
    }

    fn normalize(&self, raw_output: &str) -> (r: String) {
        trim(raw_output)
    }

    fn name(&self) -> (r: &'static str) {
        "OpenAIWhisperNormalizer"
    }
}

/// The normalizer of one backend dialect.
pub enum Normalizer {
    WhisperCpp(WhisperCppNormalizer),
    OpenAIWhisper(OpenAIWhisperNormalizer),
}

impl Normalizer {
    /// The clean text that `run` returns for `raw`.
    pub open spec fn normalized(&self, raw: Seq<char>) -> Seq<char> {
        match self {
            Normalizer::WhisperCpp(n) => n.normalized(raw),
            Normalizer::OpenAIWhisper(n) => n.normalized(raw),
        }
    }

    /// The whitespace-only strategy where `is_openai_whisper`, else the one
    /// that removes timestamp markers.
    pub fn create(is_openai_whisper: bool) -> (r: Result<Self, NormalizerError>)
        ensures
            is_openai_whisper ==> r matches Ok(Normalizer::OpenAIWhisper(_)),
            !is_openai_whisper ==> (r is Ok == regex_compiles(timestamp_pattern_spec())),
            !is_openai_whisper ==> (r matches Ok(n) ==> (n matches Normalizer::WhisperCpp(c)
                && c.pattern() == timestamp_pattern_spec())),
            r matches Err(e) ==> e == NormalizerError::InvalidPattern,
    {
        if is_openai_whisper {
            Ok(Normalizer::OpenAIWhisper(OpenAIWhisperNormalizer::new()))
        } else {
            match WhisperCppNormalizer::new() {
                Ok(n) => Ok(Normalizer::WhisperCpp(n)),
                Err(e) => Err(e),
            }
        }
    }

    /// Normalizes `raw_output` with the strategy held.
    pub fn run(&self, raw_output: &str) -> (r: String)
        ensures
            r@ == self.normalized(raw_output@),
    {
        match self {
            Normalizer::WhisperCpp(n) => n.normalize(raw_output),
            Normalizer::OpenAIWhisper(n) => n.normalize(raw_output),
        }
    }
}

/// Whitespace-only normalization is idempotent.
pub proof fn lemma_trim_normalization_idempotent(n: OpenAIWhisperNormalizer, raw: Seq<char>)
    ensures
        n.normalized(n.normalized(raw)) == n.normalized(raw),
{
    lemma_trim_idempotent(raw);
}

} // verus!
