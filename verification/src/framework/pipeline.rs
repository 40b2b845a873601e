//! The message processing pipeline: sanitize, enrich, route, process, format.

use vstd::prelude::*;
use vstd::string::*;
use crate::framework::config::{BotConfig, PipelineConfig};
use crate::framework::error::Error;
use crate::framework::message::{Message, MessageType, Response, ResponseType};
use crate::json::{json_as_str, json_string};
use crate::string_map::StringMap;
use crate::system::millis_since;
use crate::text::{
    CharClass, chars_of, copy_range, char_is_control, char_is_whitespace, contains_text, decimal,
    decimal_chars, extend_chars, html_encode_text, html_escaped, is_infix, leading_run,
    lowercase_of, run_from, str_eq, string_of, to_lowercase, trim_chars, trimmed,
};

verus! {

/// Whether sanitizing keeps a character: control characters go, unless they
/// are whitespace.
pub open spec fn kept(c: char) -> bool {
    !char_is_control(c) || char_is_whitespace(c)
}

/// A text without the characters that sanitizing drops.
pub open spec fn without_controls(s: Seq<char>) -> Seq<char>
    decreases s.len(),
{
    if s.len() == 0 {
        Seq::empty()
    } else if kept(s.last()) {
        without_controls(s.drop_last()).push(s.last())
    } else {
        without_controls(s.drop_last())
    }
}

/// A text cut at its newlines: one piece more than there are newlines.
pub open spec fn split_lines(s: Seq<char>) -> Seq<Seq<char>>
    decreases s.len(),
{
    if s.len() == 0 {
        seq![Seq::<char>::empty()]
    } else {
        let before = split_lines(s.drop_last());
        if s.last() == '\n' {
            before.push(Seq::empty())
        } else {
            before.drop_last().push(before.last().push(s.last()))
        }
    }
}

/// The text so far with one more line: the line is trimmed, left out where
/// nothing remains of it, and set off by a newline from what came before.
pub open spec fn with_line(before: Seq<char>, line: Seq<char>) -> Seq<char> {
    let t = trimmed(line);
    if t.len() == 0 {
        before
    } else if before.len() == 0 {
        t
    } else {
        before.push('\n') + t
    }
}

/// The lines, each trimmed, without those that are empty, joined by newlines.
pub open spec fn join_trimmed(lines: Seq<Seq<char>>) -> Seq<char>
    decreases lines.len(),
{
    if lines.len() == 0 {
        Seq::empty()
    } else {
        with_line(join_trimmed(lines.drop_last()), lines.last())
    }
}

/// A text sanitized: control characters dropped, every line trimmed, empty
/// lines left out.
pub open spec fn sanitized(s: Seq<char>) -> Seq<char> {
    join_trimmed(split_lines(without_controls(s)))
}

/// Whether a key, in lowercase, holds one of the sensitive words.
pub open spec fn holds_sensitive_word(lowered: Seq<char>) -> bool {
    is_infix("password"@, lowered) || is_infix("token"@, lowered) || is_infix("secret"@, lowered)
        || is_infix("api_key"@, lowered) || is_infix("auth"@, lowered)
}

/// Whether a key, in lowercase, holds one of the sensitive words.
pub fn is_sensitive_key(lowered: &str) -> (b: bool)
    ensures
        b == holds_sensitive_word(lowered@),
{
    contains_text(lowered, "password") || contains_text(lowered, "token") || contains_text(
        lowered,
        "secret",
    ) || contains_text(lowered, "api_key") || contains_text(lowered, "auth")
}

/// Append a line to the text so far.
fn push_line(out: &mut Vec<char>, line: &Vec<char>)
    ensures
        final(out)@ == with_line(old(out)@, line@),
{
    let t = trim_chars(line);
    if t.len() > 0 {
        if out.len() > 0 {
            out.push('\n');
        }
        extend_chars(out, &t);
    }
    assert(out@ =~= with_line(old(out)@, line@));
}

/// Sanitization stage - cleans and validates input
#[derive(Debug)]
pub struct SanitizeStage {}

impl SanitizeStage {
    /// Create the stage
    pub fn new() -> (s: Self) {
        SanitizeStage {  }
    }

    /// Remove control characters, trim every line, and drop empty lines
    pub fn sanitize_content(&self, content: &str) -> (r: String)
        ensures
            r@ == sanitized(content@),
    {
        let chars = chars_of(content);
        let mut out: Vec<char> = Vec::new();
        let mut current: Vec<char> = Vec::new();
        let ghost mut done: Seq<Seq<char>> = Seq::empty();
        let mut i: usize = 0;
        assert(chars@.take(0) =~= Seq::<char>::empty());
        assert(split_lines(without_controls(chars@.take(0))) =~= done.push(current@));
        while i < chars.len()
            invariant
                i <= chars.len(),
                split_lines(without_controls(chars@.take(i as int))) == done.push(current@),
                out@ == join_trimmed(done),
            decreases chars.len() - i,
        {
            let c = chars[i];
            proof {
                assert(chars@.take(i + 1).drop_last() =~= chars@.take(i as int));
                assert(chars@.take(i + 1).last() == c);
                assert(done.push(current@).drop_last() =~= done);
            }
            let ghost cleaned = without_controls(chars@.take(i as int));
            if !c.is_control() || c.is_whitespace() {
                proof {
                    assert(without_controls(chars@.take(i + 1)) == cleaned.push(c));
                    assert(cleaned.push(c).drop_last() =~= cleaned);
                }
                if c == '\n' {
                    push_line(&mut out, &current);
                    proof {
                        let ghost prev = done;
                        done = done.push(current@);
                        assert(done.drop_last() =~= prev);
                    }
                    current = Vec::new();
                } else {
                    current.push(c);
                }
            }
            i = i + 1;
        }
        push_line(&mut out, &current);
        proof {
            assert(chars@.take(chars.len() as int) =~= chars@);
            assert(done.push(current@).drop_last() =~= done);
        }
        string_of(&out)
    }

    /// Remove the entries whose keys, in lowercase, hold a sensitive word
    pub fn sanitize_metadata(&self, metadata: &mut StringMap<serde_json::Value>)
        ensures
            forall|k: Seq<char>|
                final(metadata)@.contains_key(k) <==> old(metadata)@.contains_key(k)
                    && !holds_sensitive_word(lowercase_of(k)),
            forall|k: Seq<char>|
                final(metadata)@.contains_key(k) ==> final(metadata)@[k] == old(metadata)@[k],
    {
        let n = metadata.len();
        let mut doomed: Vec<String> = Vec::new();
        let mut i: usize = 0;
        while i < n
            invariant
                i <= n,
                n == metadata.spec_keys().len(),
                metadata.listed(),
                forall|j: int|
                    0 <= j < doomed@.len() ==> holds_sensitive_word(
                        lowercase_of((#[trigger] doomed@[j])@),
                    ),
                forall|idx: int|
                    0 <= idx < i && holds_sensitive_word(
                        lowercase_of(#[trigger] metadata.spec_keys()[idx]),
                    ) ==> exists|j: int| 0 <= j < doomed@.len() && (#[trigger] doomed@[j])@
                        == metadata.spec_keys()[idx],
            decreases n - i,
        {
            let key = metadata.key_at_index(i);
            let lowered = to_lowercase(key.as_str());
            if is_sensitive_key(lowered.as_str()) {
                let ghost before = doomed@;
                doomed.push(key.clone());
                proof {
                    assert forall|idx: int|
                        0 <= idx < i + 1 && holds_sensitive_word(
                            lowercase_of(#[trigger] metadata.spec_keys()[idx]),
                        ) implies exists|j: int|
                        0 <= j < doomed@.len() && (#[trigger] doomed@[j])@
                            == metadata.spec_keys()[idx] by {
                        if idx < i {
                            let j = choose|j: int|
                                0 <= j < before.len() && (#[trigger] before[j])@
                                    == metadata.spec_keys()[idx];
                            assert(doomed@[j]@ == metadata.spec_keys()[idx]);
                        } else {
                            assert(doomed@[doomed@.len() - 1]@ == metadata.spec_keys()[idx]);
                        }
                    }
                }
            }
            i = i + 1;
        }
        proof {
            assert forall|k: Seq<char>|
                old(metadata)@.contains_key(k) && holds_sensitive_word(
                    lowercase_of(k),
                ) implies exists|j: int| 0 <= j < doomed@.len() && (#[trigger] doomed@[j])@ == k by {
                let idx = choose|idx: int|
                    0 <= idx < metadata.spec_keys().len() && #[trigger] metadata.spec_keys()[idx]
                        == k;
                assert(holds_sensitive_word(lowercase_of(metadata.spec_keys()[idx])));
            }
        }
        let mut j: usize = 0;
        while j < doomed.len()
            invariant
                j <= doomed.len(),
                forall|k: Seq<char>|
                    metadata@.contains_key(k) <==> old(metadata)@.contains_key(k) && forall|
                        d: int,
                    | 0 <= d < j ==> (#[trigger] doomed@[d])@ != k,
                forall|k: Seq<char>| metadata@.contains_key(k) ==> metadata@[k] == old(metadata)@[k],
            decreases doomed.len() - j,
        {
            let ghost before = metadata@;
            let _ = metadata.remove(doomed[j].as_str());
            proof {
                assert forall|k: Seq<char>|
                    metadata@.contains_key(k) <==> old(metadata)@.contains_key(k) && forall|
                        d: int,
                    | 0 <= d < j + 1 ==> (#[trigger] doomed@[d])@ != k by {
                    if metadata@.contains_key(k) {
                        assert(before.contains_key(k));
                        assert(k != doomed@[j as int]@);
                        assert forall|d: int| 0 <= d < j + 1 implies (#[trigger] doomed@[d])@
                            != k by {
                            if d < j {
                            }
                        }
                    }
                    if old(metadata)@.contains_key(k) && (forall|d: int|
                        0 <= d < j + 1 ==> (#[trigger] doomed@[d])@ != k) {
                        assert(doomed@[j as int]@ != k);
                        assert(forall|d: int| 0 <= d < j ==> (#[trigger] doomed@[d])@ != k);
                        assert(before.contains_key(k));
                    }
                }
            }
            j = j + 1;
        }
        proof {
            assert forall|k: Seq<char>|
                metadata@.contains_key(k) <==> old(metadata)@.contains_key(k)
                    && !holds_sensitive_word(lowercase_of(k)) by {
                if old(metadata)@.contains_key(k) && holds_sensitive_word(lowercase_of(k)) {
                    let d = choose|d: int| 0 <= d < doomed@.len() && (#[trigger] doomed@[d])@ == k;
                    assert(doomed@[d]@ == k);
                }
                if old(metadata)@.contains_key(k) && !holds_sensitive_word(lowercase_of(k)) {
                    assert forall|d: int| 0 <= d < doomed@.len() implies (#[trigger] doomed@[d])@
                        != k by {
                        assert(holds_sensitive_word(lowercase_of(doomed@[d]@)));
                    }
                }
            }
        }
    }
}

/// Enrichment stage - adds context and metadata
#[derive(Debug)]
pub struct EnrichStage {}

impl EnrichStage {
    /// Create the stage
    pub fn new() -> (s: Self) {
        EnrichStage {  }
    }

    /// Detect the language of a text: every text is taken for English
    pub fn detect_language(&self, content: &str) -> (language: &'static str)
        ensures
            language@ == "en"@,
    {
        "en"
    }
}

/// The path that a message takes through processing.
#[derive(Debug, Clone, Copy, PartialEq, Eq, Structural)]
pub enum Route {
    /// A command to the bot
    Command,
    /// A system message
    System,
    /// An error message
    Error,
    /// A message with attachments
    Media,
    /// Any other message
    Default,
}

impl Route {
    /// The route's name.
    pub open spec fn name(self) -> Seq<char> {
        match self {
            Route::Command => "command"@,
            Route::System => "system"@,
            Route::Error => "error"@,
            Route::Media => "media"@,
            Route::Default => "default"@,
        }
    }

    /// The route's name.
    pub fn as_str(&self) -> (s: &'static str)
        ensures
            s@ == self.name(),
    {
        match self {
            Route::Command => "command",
            Route::System => "system",
            Route::Error => "error",
            Route::Media => "media",
            Route::Default => "default",
        }
    }

    /// The route of a message: its type decides, and among the other types
    /// attachments make it media.
    pub open spec fn of(message_type: MessageType, has_attachments: bool) -> Route {
        match message_type {
            MessageType::Command => Route::Command,
            MessageType::System => Route::System,
            MessageType::Error => Route::Error,
            _ => if has_attachments {
                Route::Media
            } else {
                Route::Default
            },
        }
    }
}

/// The first word of a text: what lies between its leading whitespace and the
/// next whitespace.
pub open spec fn first_word(s: Seq<char>) -> Seq<char> {
    let start = leading_run(s, CharClass::Whitespace) as int;
    let rest = s.skip(start);
    rest.take(leading_run(rest, CharClass::Visible) as int)
}

/// The command that a text gives: where it begins with a slash, its first
/// word without the slashes that the word begins with.
pub open spec fn command_of(content: Seq<char>) -> Option<Seq<char>> {
    if content.len() > 0 && content[0] == '/' {
        let word = first_word(content);
        if word.len() == 0 {
            None
        } else {
            Some(word.skip(leading_run(word, CharClass::Slash) as int))
        }
    } else {
        None
    }
}

/// Routing stage - determines processing path
#[derive(Debug)]
pub struct RouteStage {}

impl RouteStage {
    /// Create the stage
    pub fn new() -> (s: Self) {
        RouteStage {  }
    }

    /// The route of a message
    pub fn route_for(&self, message: &Message) -> (route: Route)
        ensures
            route == Route::of(message.message_type, message.attachments@.len() > 0),
    {
        match message.message_type {
            MessageType::Command => Route::Command,
            MessageType::System => Route::System,
            MessageType::Error => Route::Error,
            _ => if message.has_attachments() {
                Route::Media
            } else {
                Route::Default
            },
        }
    }

    /// Extract the command from a text that begins with a slash
    pub fn extract_command(&self, content: &str) -> (r: Option<String>)
        ensures
            match r {
                Some(command) => command_of(content@) == Some(command@),
                None => command_of(content@) is None,
            },
    {
        let chars = chars_of(content);
        if chars.len() == 0 || chars[0] != '/' {
            return None;
        }
        let start = run_from(&chars, 0, CharClass::Whitespace);
        assert(chars@.skip(0) =~= chars@);
        let length = run_from(&chars, start, CharClass::Visible);
        if length == 0 {
            return None;
        }
        let word = copy_range(&chars, start, start + length);
        assert(word@ =~= first_word(chars@));
        let slashes = run_from(&word, 0, CharClass::Slash);
        assert(word@.skip(0) =~= word@);
        let command = copy_range(&word, slashes, word.len());
        assert(command@ =~= word@.skip(slashes as int));
        Some(string_of(&command))
    }
}

/// What the bot answers on a route.
pub open spec fn answer_on(
    route: Route,
    command: Option<Seq<char>>,
    attachments: nat,
    content: Seq<char>,
) -> Seq<char> {
    match route {
        Route::Command => "Executing command: "@ + match command {
            Some(c) => c,
            None => "unknown"@,
        },
        Route::System => "System message received"@,
        Route::Error => "Error processed"@,
        Route::Media => "Received "@ + decimal(attachments) + " attachment(s)"@,
        Route::Default => "Processing message: "@ + content,
    }
}

/// Processing stage - main processing
#[derive(Debug)]
pub struct ProcessStage {}

impl ProcessStage {
    /// Create the stage
    pub fn new() -> (s: Self) {
        ProcessStage {  }
    }

    /// What the bot answers to a command
    pub fn process_command(&self, command: &Option<String>) -> (r: String)
        ensures
            r@ == "Executing command: "@ + match command {
                Some(c) => c@,
                None => "unknown"@,
            },
    {
        let mut r = String::from_str("Executing command: ");
        match command {
            Some(c) => {
                r.append(c.as_str());
            },
            None => {
                r.append("unknown");
            },
        }
        r
    }

    /// What the bot answers on a route
    pub fn answer(&self, route: Route, command: &Option<String>, message: &Message) -> (r: String)
        ensures
            r@ == answer_on(
                route,
                match command {
                    Some(c) => Some(c@),
                    None => None,
                },
                message.attachments@.len(),
                message.content@,
            ),
    {
        match route {
            Route::Command => self.process_command(command),
            Route::System => String::from_str("System message received"),
            Route::Error => String::from_str("Error processed"),
            Route::Media => {
                let mut r = String::from_str("Received ");
                let count = decimal_chars(message.attachments.len());
                let shown = string_of(&count);
                r.append(shown.as_str());
                r.append(" attachment(s)");
                r
            },
            Route::Default => {
                let mut r = String::from_str("Processing message: ");
                r.append(message.content.as_str());
                r
            },
        }
    }
}

/// The lines of a text as the standard library cuts them: at newlines, with
/// a carriage return before a newline dropped, and without an empty last line.
pub open spec fn text_lines(s: Seq<char>) -> Seq<Seq<char>> {
    let pieces = split_lines(s);
    let ended = Seq::new(
        (pieces.len() - 1) as nat,
        |i: int|
            if pieces[i].len() > 0 && pieces[i].last() == '\r' {
                pieces[i].drop_last()
            } else {
                pieces[i]
            },
    );
    if pieces.last().len() == 0 {
        ended
    } else {
        ended.push(pieces.last())
    }
}

/// The HTML so far with one more line: the line escaped, a line break, and a
/// newline between it and what came before.
pub open spec fn with_html_line(before: Seq<char>, line: Seq<char>) -> Seq<char> {
    if before.len() == 0 {
        html_escaped(line) + "<br>"@
    } else {
        before.push('\n') + html_escaped(line) + "<br>"@
    }
}

/// The lines as HTML, one after another.
pub open spec fn html_lines(lines: Seq<Seq<char>>) -> Seq<char>
    decreases lines.len(),
{
    if lines.len() == 0 {
        Seq::empty()
    } else {
        with_html_line(html_lines(lines.drop_last()), lines.last())
    }
}

/// A text as an HTML paragraph.
pub open spec fn html_of(content: Seq<char>) -> Seq<char> {
    "<p>"@ + html_lines(text_lines(content)) + "</p>"@
}

/// Append a line to the HTML so far.
fn push_html_line(out: &mut Vec<char>, line: &Vec<char>)
    ensures
        final(out)@ == with_html_line(old(out)@, line@),
        final(out)@.len() > 0,
{
    let text = string_of(line);
    let escaped = html_encode_text(text.as_str());
    let escaped_chars = chars_of(escaped.as_str());
    let br = chars_of("<br>");
    proof {
        reveal_strlit("<br>");
    }
    if out.len() > 0 {
        out.push('\n');
    }
    extend_chars(out, &escaped_chars);
    extend_chars(out, &br);
    assert(out@ =~= with_html_line(old(out)@, line@));
}

/// Formatting stage - formats the response
#[derive(Debug)]
pub struct FormatStage {}

impl FormatStage {
    /// Create the stage
    pub fn new() -> (s: Self) {
        FormatStage {  }
    }

    /// Convert a text to an HTML paragraph: every line escaped and followed
    /// by a line break
    pub fn to_html(&self, content: &str) -> (r: String)
        ensures
            r@ == html_of(content@),
    {
        let chars = chars_of(content);
        let mut out: Vec<char> = Vec::new();
        let mut current: Vec<char> = Vec::new();
        let ghost mut done: Seq<Seq<char>> = Seq::empty();
        let ghost mut ended: Seq<Seq<char>> = Seq::empty();
        let mut i: usize = 0;
        assert(chars@.take(0) =~= Seq::<char>::empty());
        assert(split_lines(chars@.take(0)) =~= done.push(current@));
        while i < chars.len()
            invariant
                i <= chars.len(),
                split_lines(chars@.take(i as int)) == done.push(current@),
                ended.len() == done.len(),
                forall|k: int|
                    0 <= k < done.len() ==> #[trigger] ended[k] == (if done[k].len() > 0
                        && done[k].last() == '\r' {
                        done[k].drop_last()
                    } else {
                        done[k]
                    }),
                out@ == html_lines(ended),
            decreases chars.len() - i,
        {
            let c = chars[i];
            proof {
                assert(chars@.take(i + 1).drop_last() =~= chars@.take(i as int));
                assert(chars@.take(i + 1).last() == c);
                assert(done.push(current@).drop_last() =~= done);
            }
            if c == '\n' {
                let n = current.len();
                let line = if n > 0 && current[n - 1] == '\r' {
                    copy_range(&current, 0, n - 1)
                } else {
                    copy_range(&current, 0, n)
                };
                proof {
                    assert(current@.subrange(0, n as int) =~= current@);
                    if n > 0 {
                        assert(current@.subrange(0, n - 1) =~= current@.drop_last());
                    }
                }
                push_html_line(&mut out, &line);
                proof {
                    let ghost old_ended = ended;
                    done = done.push(current@);
                    ended = ended.push(line@);
                    assert(ended.drop_last() =~= old_ended);
                }
                current = Vec::new();
            } else {
                current.push(c);
            }
            i = i + 1;
        }
        proof {
            assert(chars@.take(chars.len() as int) =~= chars@);
            let pieces = split_lines(chars@);
            assert(pieces.drop_last() =~= done);
            assert(pieces.last() == current@);
            let cut = Seq::new(
                (pieces.len() - 1) as nat,
                |i: int|
                    if pieces[i].len() > 0 && pieces[i].last() == '\r' {
                        pieces[i].drop_last()
                    } else {
                        pieces[i]
                    },
            );
            assert(cut =~= ended);
        }
        if current.len() > 0 {
            let ghost old_ended = ended;
            push_html_line(&mut out, &current);
            proof {
                ended = ended.push(current@);
                assert(ended.drop_last() =~= old_ended);
            }
        }
        assert(ended == text_lines(chars@));
        let mut r = String::from_str("<p>");
        let body = string_of(&out);
        r.append(body.as_str());
        r.append("</p>");
        r
    }

    /// The type that a response takes for a format that the message asks for;
    /// a format that is not known leaves the type as it is.
    pub fn response_type_for(&self, format: &str, current: ResponseType) -> (t: ResponseType)
        ensures
            t == (if format@ == "markdown"@ {
                ResponseType::Markdown
            } else if format@ == "html"@ {
                ResponseType::Html
            } else if format@ == "json"@ {
                ResponseType::Json
            } else {
                current
            }),
    {
        if str_eq(format, "markdown") {
            ResponseType::Markdown
        } else if str_eq(format, "html") {
            ResponseType::Html
        } else if str_eq(format, "json") {
            ResponseType::Json
        } else {
            current
        }
    }

    /// Whether `after` is `before` in the given format: the type is the
    /// format's, HTML rewrites the content, and nothing else differs.
    pub open spec fn is_formatted(before: Response, after: Response, format: Seq<char>) -> bool {
        &&& after.response_type == (if format == "markdown"@ {
            ResponseType::Markdown
        } else if format == "html"@ {
            ResponseType::Html
        } else if format == "json"@ {
            ResponseType::Json
        } else {
            before.response_type
        })
        &&& after.content@ == (if format == "html"@ && format != "markdown"@ {
            html_of(before.content@)
        } else {
            before.content@
        })
        &&& after.id == before.id
        &&& after.conversation_id == before.conversation_id
        &&& after.error == before.error
        &&& after.metadata == before.metadata
        &&& after.timestamp_ms == before.timestamp_ms
        &&& after.usage == before.usage
        &&& after.flags == before.flags
        &&& after.suggestions == before.suggestions
    }

    /// Format a response as the message asked for: the type is set, and for
    /// HTML the content becomes an HTML paragraph.
    pub fn apply_format(&self, format: &str, response: Response) -> (r: Response)
        ensures
            Self::is_formatted(response, r, format@),
    {
        let mut r = response;
        let was = r.response_type;
        r.response_type = self.response_type_for(format, was);
        if !str_eq(format, "markdown") && str_eq(format, "html") {
            r.content = self.to_html(r.content.as_str());
        }
        r
    }

    /// Format the response of a run, where there is one and the message
    /// names a format.
    pub fn format_response(&self, response: Option<Response>, format: Option<String>) -> (r:
        Option<Response>)
        ensures
            match (response, format) {
                (Some(before), Some(f)) => r is Some && Self::is_formatted(before, r->0, f@),
                _ => r == response,
            },
    {
        match format {
            Some(f) => match response {
                Some(before) => Some(self.apply_format(f.as_str(), before)),
                None => None,
            },
            None => response,
        }
    }
}

/// Pipeline processing context
#[derive(Debug)]
pub struct PipelineContext {
    /// The message being processed
    pub message: Message,
    /// The route, once the message has been routed
    pub route: Option<Route>,
    /// The command, where the message gives one
    pub command: Option<String>,
    /// The media types of the attachments, for a message on the media route
    pub media_types: Vec<String>,
    /// The response, once the message has been processed
    pub response: Option<Response>,
}

/// What a run has made of a message so far, leaving aside identifiers,
/// timestamps and the values of metadata.
pub struct RunView {
    /// The content of the message
    pub content: Seq<char>,
    /// The type of the message
    pub message_type: MessageType,
    /// The number of attachments
    pub attachments: nat,
    /// Whether the metadata of the message names a format
    pub asks_for_format: bool,
    /// The route, once the message has been routed
    pub route: Option<Route>,
    /// The command, where the message gives one
    pub command: Option<Seq<char>>,
    /// The content and the type of the response, once there is one
    pub answer: Option<(Seq<char>, ResponseType)>,
}

impl PipelineContext {
    /// What the run has made of the message so far.
    pub open spec fn run_view(&self) -> RunView {
        RunView {
            content: self.message.content@,
            message_type: self.message.message_type,
            attachments: self.message.attachments@.len(),
            asks_for_format: self.message.metadata@.contains_key("format"@),
            route: self.route,
            command: match self.command {
                Some(c) => Some(c@),
                None => None,
            },
            answer: match self.response {
                Some(r) => Some((r.content@, r.response_type)),
                None => None,
            },
        }
    }

    /// What a run knows of a message before its first stage.
    pub open spec fn initial_view(message: Message) -> RunView {
        RunView {
            content: message.content@,
            message_type: message.message_type,
            attachments: message.attachments@.len(),
            asks_for_format: message.metadata@.contains_key("format"@),
            route: None,
            command: None,
            answer: None,
        }
    }

    /// The context of a message that no stage has seen yet.
    pub fn new(message: Message) -> (ctx: Self)
        ensures
            ctx.run_view() == Self::initial_view(message),
            ctx.message == message,
            ctx.route is None,
            ctx.command is None,
            ctx.media_types@.len() == 0,
            ctx.response is None,
    {
        PipelineContext {
            message,
            route: None,
            command: None,
            media_types: Vec::new(),
            response: None,
        }
    }
}

/// A stage of the pipeline
pub trait PipelineStage {
    /// Stage name
    fn name(&self) -> &'static str;

    /// Process the pipeline context
    fn process(&self, ctx: PipelineContext) -> Result<PipelineContext, Error>;
}

impl PipelineStage for SanitizeStage {
    fn name(&self) -> (n: &'static str)
        ensures
            n@ == "sanitize"@,
    {
        "sanitize"
    }

    fn process(&self, ctx: PipelineContext) -> (r: Result<PipelineContext, Error>)
        ensures
            r is Ok <==> 1 <= sanitized(ctx.message.content@).len() <= 100_000,
            r matches Err(e) ==> e is Validation,
            r matches Ok(out) ==> {
                &&& out.message.content@ == sanitized(ctx.message.content@)
                &&& forall|k: Seq<char>|
                    out.message.metadata@.contains_key(k) <==> ctx.message.metadata@.contains_key(k)
                        && !holds_sensitive_word(lowercase_of(k))
                &&& out.message.message_type == ctx.message.message_type
                &&& out.message.attachments == ctx.message.attachments
                &&& out.message.conversation_id == ctx.message.conversation_id
                &&& out.route == ctx.route
                &&& out.command == ctx.command
                &&& out.response == ctx.response
            },
    {
        let mut ctx = ctx;
        // Sanitize message content
        ctx.message.content = self.sanitize_content(ctx.message.content.as_str());
        // Validate message
        match ctx.message.validate() {
            Err(e) => {
                return Err(e);
            },
            Ok(()) => {},
        }
        // Remove sensitive data from metadata
        let mut metadata = StringMap::new();
        std::mem::swap(&mut metadata, &mut ctx.message.metadata);
        self.sanitize_metadata(&mut metadata);
        ctx.message.metadata = metadata;
        Ok(ctx)
    }
}

impl PipelineStage for EnrichStage {
    fn name(&self) -> (n: &'static str)
        ensures
            n@ == "enrich"@,
    {
        "enrich"
    }

    fn process(&self, ctx: PipelineContext) -> (r: Result<PipelineContext, Error>)
        ensures
            r matches Ok(out) && out.message.content == ctx.message.content
                && out.message.metadata@.dom() == ctx.message.metadata@.dom().insert("language"@)
                && (forall|k: Seq<char>|
                ctx.message.metadata@.contains_key(k) ==> out.message.metadata@[k]
                    == ctx.message.metadata@[k]) && out.message.message_type
                == ctx.message.message_type && out.message.attachments == ctx.message.attachments
                && out.message.conversation_id == ctx.message.conversation_id && out.route
                == ctx.route && out.command == ctx.command && out.response == ctx.response,
    {
        let ghost before = ctx.message.metadata@;
        let mut ctx = ctx;
        // Detect language if needed
        if !ctx.message.metadata.contains_key("language") {
            let language = self.detect_language(ctx.message.content.as_str());
            let mut metadata = StringMap::new();
            std::mem::swap(&mut metadata, &mut ctx.message.metadata);
            metadata.insert(String::from_str("language"), json_string(language));
            ctx.message.metadata = metadata;
            assert(ctx.message.metadata@.dom() =~= before.dom().insert("language"@));
        } else {
            assert(before.dom() =~= before.dom().insert("language"@));
        }
        Ok(ctx)
    }
}

impl PipelineStage for RouteStage {
    fn name(&self) -> (n: &'static str)
        ensures
            n@ == "route"@,
    {
        "route"
    }

    fn process(&self, ctx: PipelineContext) -> (r: Result<PipelineContext, Error>)
        ensures
            r matches Ok(out) && out.message == ctx.message && out.response == ctx.response
                && out.route == Some(
                Route::of(ctx.message.message_type, ctx.message.attachments@.len() > 0),
            ) && (if out.route == Some(Route::Command) {
                match out.command {
                    Some(c) => command_of(ctx.message.content@) == Some(c@),
                    None => command_of(ctx.message.content@) is None,
                }
            } else {
                out.command == ctx.command
            }) && (if out.route == Some(Route::Media) {
                out.media_types@.len() == ctx.message.attachments@.len() && forall|i: int|
                    0 <= i < out.media_types@.len() ==> (#[trigger] out.media_types@[i])@
                        == ctx.message.attachments@[i].mime_type@
            } else {
                out.media_types == ctx.media_types
            }),
    {
        let mut ctx = ctx;
        // Determine route based on message type
        let route = self.route_for(&ctx.message);
        ctx.route = Some(route);
        // Add route-specific metadata
        match route {
            Route::Command => {
                ctx.command = self.extract_command(ctx.message.content.as_str());
            },
            Route::Media => {
                let mut media_types: Vec<String> = Vec::new();
                let mut i: usize = 0;
                while i < ctx.message.attachments.len()
                    invariant
                        i <= ctx.message.attachments.len(),
                        media_types@.len() == i,
                        forall|k: int|
                            0 <= k < i ==> (#[trigger] media_types@[k])@
                                == ctx.message.attachments@[k].mime_type@,
                    decreases ctx.message.attachments.len() - i,
                {
                    media_types.push(ctx.message.attachments[i].mime_type.clone());
                    i = i + 1;
                }
                ctx.media_types = media_types;
            },
            _ => {},
        }
        Ok(ctx)
    }
}

impl PipelineStage for ProcessStage {
    fn name(&self) -> (n: &'static str)
        ensures
            n@ == "process"@,
    {
        "process"
    }

    fn process(&self, ctx: PipelineContext) -> (r: Result<PipelineContext, Error>)
        ensures
            r matches Ok(out) && out.message == ctx.message && out.route == ctx.route
                && out.command == ctx.command && out.media_types == ctx.media_types
                && out.response is Some && out.response->0.conversation_id@
                == ctx.message.conversation_id@ && out.response->0.content@ == answer_on(
                match ctx.route {
                    Some(route) => route,
                    None => Route::Default,
                },
                match ctx.command {
                    Some(c) => Some(c@),
                    None => None,
                },
                ctx.message.attachments@.len(),
                ctx.message.content@,
            ) && out.response->0.response_type == ResponseType::Text && out.response->0.error is None,
    {
        let mut ctx = ctx;
        let route = match ctx.route {
            Some(route) => route,
            None => Route::Default,
        };
        let content = self.answer(route, &ctx.command, &ctx.message);
        let response = Response::text(ctx.message.conversation_id.as_str(), content.as_str());
        ctx.response = Some(response);
        Ok(ctx)
    }
}

impl PipelineStage for FormatStage {
    fn name(&self) -> (n: &'static str)
        ensures
            n@ == "format"@,
    {
        "format"
    }

    fn process(&self, ctx: PipelineContext) -> (r: Result<PipelineContext, Error>)
        ensures
            r matches Ok(out) && out.message == ctx.message && out.route == ctx.route
                && out.command == ctx.command && out.media_types == ctx.media_types
                && (out.response is Some <==> ctx.response is Some) && (ctx.response is Some
                ==> out.response->0.conversation_id == ctx.response->0.conversation_id)
                && (!ctx.message.metadata@.contains_key("format"@) ==> out.response
                == ctx.response) && (out.response == ctx.response || exists|format: Seq<char>|
                ctx.response is Some && out.response is Some && #[trigger] FormatStage::is_formatted(
                    ctx.response->0,
                    out.response->0,
                    format,
                )),
    {
        let mut ctx = ctx;
        // The format that the message asks for, where it names one as a string
        let format: Option<String> = match ctx.message.metadata.get("format") {
            Some(value) => json_as_str(value),
            None => None,
        };
        let mut response: Option<Response> = None;
        std::mem::swap(&mut response, &mut ctx.response);
        let ghost before = response;
        let ghost asked = format;
        ctx.response = self.format_response(response, format);
        proof {
            if before is Some && asked is Some {
                assert(FormatStage::is_formatted(before->0, ctx.response->0, asked->0@));
            }
        }
        Ok(ctx)
    }
}

/// One of the stages that the pipeline knows.
#[derive(Debug)]
pub enum Stage {
    /// Cleans and validates input
    Sanitize(SanitizeStage),
    /// Adds metadata
    Enrich(EnrichStage),
    /// Determines the processing path
    Route(RouteStage),
    /// Makes the response
    Process(ProcessStage),
    /// Formats the response
    Format(FormatStage),
}

impl Stage {
    /// The stage's name.
    pub open spec fn spec_name(&self) -> Seq<char> {
        match self {
            Stage::Sanitize(_) => "sanitize"@,
            Stage::Enrich(_) => "enrich"@,
            Stage::Route(_) => "route"@,
            Stage::Process(_) => "process"@,
            Stage::Format(_) => "format"@,
        }
    }

    /// Whether a stage of this name is known.
    pub open spec fn known(name: Seq<char>) -> bool {
        name == "sanitize"@ || name == "enrich"@ || name == "route"@ || name == "process"@
            || name == "format"@
    }

    /// The stage's name.
    pub fn name(&self) -> (n: &'static str)
        ensures
            n@ == self.spec_name(),
    {
        match self {
            Stage::Sanitize(s) => s.name(),
            Stage::Enrich(s) => s.name(),
            Stage::Route(s) => s.name(),
            Stage::Process(s) => s.name(),
            Stage::Format(s) => s.name(),
        }
    }

    /// What the stage makes of a run whose message names no format, or
    /// nothing where the stage refuses the message.
    pub open spec fn effect(&self, v: RunView) -> Option<RunView> {
        match self {
            Stage::Sanitize(_) => {
                let content = sanitized(v.content);
                if 1 <= content.len() <= 100_000 {
                    Some(RunView { content, ..v })
                } else {
                    None
                }
            },
            Stage::Enrich(_) => Some(v),
            Stage::Route(_) => {
                let route = Route::of(v.message_type, v.attachments > 0);
                Some(
                    RunView {
                        route: Some(route),
                        command: if route == Route::Command {
                            command_of(v.content)
                        } else {
                            v.command
                        },
                        ..v
                    },
                )
            },
            Stage::Process(_) => Some(
                RunView {
                    answer: Some(
                        (
                            answer_on(
                                match v.route {
                                    Some(route) => route,
                                    None => Route::Default,
                                },
                                v.command,
                                v.attachments,
                                v.content,
                            ),
                            ResponseType::Text,
                        ),
                    ),
                    ..v
                },
            ),
            Stage::Format(_) => Some(v),
        }
    }

    /// Run the stage. Only sanitizing can fail, on a message whose content
    /// does not pass validation.
    pub fn process(&self, ctx: PipelineContext) -> (r: Result<PipelineContext, Error>)
        ensures
            !ctx.run_view().asks_for_format ==> match self.effect(ctx.run_view()) {
                Some(v) => r is Ok && r->Ok_0.run_view() == v,
                None => r is Err,
            },
            r matches Err(e) ==> *self is Sanitize && e is Validation,
            r matches Ok(out) ==> out.message.conversation_id@ == ctx.message.conversation_id@ && (
            ctx.response is Some ==> out.response is Some) && (*self is Process
                ==> out.response is Some) && (out.response is Some ==> (
            out.response->0.conversation_id@ == ctx.message.conversation_id@ || (ctx.response is Some
                && out.response->0.conversation_id@ == ctx.response->0.conversation_id@))) && (
            ctx.response is None && !(*self is Process) ==> out.response is None),
    {
        proof {
            reveal_strlit("format");
            reveal_strlit("language");
            assert("format"@.len() == 6);
            assert("language"@.len() == 8);
        }
        match self {
            Stage::Sanitize(s) => s.process(ctx),
            Stage::Enrich(s) => {
                let r = s.process(ctx);
                proof {
                    if r is Ok {
                        let out = r->Ok_0;
                        assert(out.message.metadata@.dom().contains("format"@)
                            == ctx.message.metadata@.dom().contains("format"@));
                    }
                }
                r
            },
            Stage::Route(s) => {
                let r = s.process(ctx);
                proof {
                    if r is Ok {
                        let out = r->Ok_0;
                        assert(out.run_view().command == (if out.route == Some(Route::Command) {
                            command_of(ctx.message.content@)
                        } else {
                            ctx.run_view().command
                        }));
                    }
                }
                r
            },
            Stage::Process(s) => s.process(ctx),
            Stage::Format(s) => s.process(ctx),
        }
    }
}

/// What the stages, one after another, make of a run whose message names no
/// format, or nothing where one of them refuses the message.
pub open spec fn effects(stages: Seq<Stage>, v: RunView) -> Option<RunView>
    decreases stages.len(),
{
    if stages.len() == 0 {
        Some(v)
    } else {
        match effects(stages.drop_last(), v) {
            Some(w) => stages.last().effect(w),
            None => None,
        }
    }
}

/// Once a stage has refused the message, the stages after it change nothing.
pub proof fn lemma_refusal_is_final(stages: Seq<Stage>, v: RunView, n: int)
    requires
        0 <= n <= stages.len(),
        effects(stages.take(n), v) is None,
    ensures
        effects(stages, v) is None,
    decreases stages.len(),
{
    if n == stages.len() {
        assert(stages.take(n) =~= stages);
    } else {
        assert(stages.drop_last().take(n) =~= stages.take(n));
        lemma_refusal_is_final(stages.drop_last(), v, n);
    }
}

/// The sum of the times.
pub open spec fn total_time(times: Seq<u64>) -> nat
    decreases times.len(),
{
    if times.len() == 0 {
        0
    } else {
        total_time(times.drop_last()) + times.last() as nat
    }
}

/// The times that are remembered, at most.
pub const MAX_REMEMBERED_TIMES: usize = 1000;

/// Pipeline metrics
#[derive(Debug)]
pub struct PipelineMetrics {
    requests_total: u64,
    processing_times: Vec<u64>,
}

impl PipelineMetrics {
    #[verifier::type_invariant]
    spec fn inv(self) -> bool {
        self.processing_times@.len() <= MAX_REMEMBERED_TIMES
    }

    /// The requests counted.
    pub closed spec fn spec_requests_total(&self) -> u64 {
        self.requests_total
    }

    /// The processing times remembered, in milliseconds, oldest first.
    pub closed spec fn spec_times(&self) -> Seq<u64> {
        self.processing_times@
    }

    /// The times after one more was recorded: only the last thousand stay.
    pub open spec fn remembered(times: Seq<u64>, ms: u64) -> Seq<u64> {
        if times.len() >= MAX_REMEMBERED_TIMES {
            times.push(ms).skip(times.len() + 1 - MAX_REMEMBERED_TIMES)
        } else {
            times.push(ms)
        }
    }

    /// Metrics on which nothing has been recorded
    pub fn new() -> (m: Self)
        ensures
            m.spec_requests_total() == 0,
            m.spec_times() == Seq::<u64>::empty(),
    {
        PipelineMetrics { requests_total: 0, processing_times: Vec::new() }
    }

    /// Count one more request
    pub fn increment_requests(&mut self)
        requires
            old(self).spec_requests_total() < u64::MAX,
        ensures
            final(self).spec_requests_total() == old(self).spec_requests_total() + 1,
            final(self).spec_times() == old(self).spec_times(),
    {
        proof {
            use_type_invariant(&*self);
        }
        self.requests_total = self.requests_total + 1;
    }

    /// Remember one more processing time, in milliseconds
    pub fn record_processing_time(&mut self, ms: u64)
        ensures
            final(self).spec_times() == Self::remembered(old(self).spec_times(), ms),
            final(self).spec_requests_total() == old(self).spec_requests_total(),
            final(self).spec_times().len() <= MAX_REMEMBERED_TIMES,
    {
        proof {
            use_type_invariant(&*self);
        }
        let mut times: Vec<u64> = Vec::new();
        let requests_total = self.requests_total;
        let mut taken = PipelineMetrics { requests_total: 0, processing_times: Vec::new() };
        std::mem::swap(self, &mut taken);
        let PipelineMetrics { requests_total: _, processing_times } = taken;
        times = processing_times;
        times.push(ms);
        if times.len() > MAX_REMEMBERED_TIMES {
            let _ = times.remove(0);
            assert(times@ =~= old(self).spec_times().push(ms).skip(1));
        }
        *self = PipelineMetrics { requests_total, processing_times: times };
    }

    /// Get total requests processed
    pub fn requests_total(&self) -> (n: u64)
        ensures
            n == self.spec_requests_total(),
    {
        self.requests_total
    }

    /// Get average processing time in milliseconds, where any was recorded
    pub fn average_processing_time(&self) -> (r: Option<u64>)
        ensures
            r is None <==> self.spec_times().len() == 0,
            r matches Some(avg) ==> avg == total_time(self.spec_times()) / self.spec_times().len(),
    {
        proof {
            use_type_invariant(self);
        }
        average_of(&self.processing_times)
    }
}

/// The average of the times, where there are any and no more than a thousand.
pub fn average_of(times: &Vec<u64>) -> (r: Option<u64>)
    requires
        times@.len() <= MAX_REMEMBERED_TIMES,
    ensures
        r is None <==> times@.len() == 0,
        r matches Some(avg) ==> avg == total_time(times@) / times@.len(),
{
    if times.len() == 0 {
        return None;
    }
    let mut total: u128 = 0;
    let mut i: usize = 0;
    while i < times.len()
        invariant
            i <= times.len(),
            times@.len() <= MAX_REMEMBERED_TIMES,
            total == total_time(times@.take(i as int)),
            total <= i * u64::MAX,
        decreases times.len() - i,
    {
        proof {
            assert(times@.take(i + 1).drop_last() =~= times@.take(i as int));
            assert((i + 1) * u64::MAX == i * u64::MAX + u64::MAX) by (nonlinear_arith);
            assert(i * u64::MAX <= 1000 * u64::MAX) by (nonlinear_arith)
                requires
                    i <= 1000,
            ;
        }
        total = total + times[i] as u128;
        i = i + 1;
    }
    proof {
        assert(times@.take(times.len() as int) =~= times@);
        let n = times@.len() as int;
        let t = total as int;
        assert(t / n <= u64::MAX) by (nonlinear_arith)
            requires
                t <= n * u64::MAX,
                n > 0,
        ;
    }
    Some((total / (times.len() as u128)) as u64)
}

/// Message processing pipeline
#[derive(Debug)]
pub struct MessagePipeline {
    config: PipelineConfig,
    stages: Vec<Stage>,
    metrics: PipelineMetrics,
}

impl MessagePipeline {
    /// The stages of the pipeline, in order.
    pub closed spec fn spec_stages(&self) -> Seq<Stage> {
        self.stages@
    }

    /// The metrics of the pipeline.
    pub closed spec fn spec_metrics(&self) -> PipelineMetrics {
        self.metrics
    }

    /// Create the stage of the given name
    pub fn create_stage(name: &str) -> (r: Result<Stage, Error>)
        ensures
            r is Ok <==> Stage::known(name@),
            r matches Ok(stage) ==> stage.spec_name() == name@,
            r matches Err(e) ==> e is Configuration && e.spec_detail() == Some(
                "Unknown pipeline stage: "@ + name@,
            ),
    {
        if str_eq(name, "sanitize") {
            Ok(Stage::Sanitize(SanitizeStage::new()))
        } else if str_eq(name, "enrich") {
            Ok(Stage::Enrich(EnrichStage::new()))
        } else if str_eq(name, "route") {
            Ok(Stage::Route(RouteStage::new()))
        } else if str_eq(name, "process") {
            Ok(Stage::Process(ProcessStage::new()))
        } else if str_eq(name, "format") {
            Ok(Stage::Format(FormatStage::new()))
        } else {
            let mut msg = String::from_str("Unknown pipeline stage: ");
            msg.append(name);
            Err(Error::Configuration(msg))
        }
    }

    /// Create a new message pipeline with the stages that the configuration
    /// enables, in their order. A stage that is not known is refused.
    pub fn new(config: &BotConfig) -> (r: Result<Self, Error>)
        ensures
            r is Ok <==> forall|i: int|
                0 <= i < config.pipeline_config.enabled_stages@.len() ==> Stage::known(
                    (#[trigger] config.pipeline_config.enabled_stages@[i])@,
                ),
            r matches Ok(p) ==> p.spec_stages().len()
                == config.pipeline_config.enabled_stages@.len() && (forall|i: int|
                0 <= i < p.spec_stages().len() ==> (#[trigger] p.spec_stages()[i]).spec_name()
                    == config.pipeline_config.enabled_stages@[i]@)
                && p.spec_metrics().spec_requests_total() == 0,
            r matches Err(e) ==> e is Configuration,
    {
        let names = &config.pipeline_config.enabled_stages;
        let mut stages: Vec<Stage> = Vec::new();
        let mut enabled: Vec<String> = Vec::new();
        let mut i: usize = 0;
        while i < names.len()
            invariant
                i <= names.len(),
                stages@.len() == i,
                enabled@.len() == i,
                names@ == config.pipeline_config.enabled_stages@,
                forall|k: int| 0 <= k < i ==> Stage::known((#[trigger] names@[k])@),
                forall|k: int| 0 <= k < i ==> (#[trigger] stages@[k]).spec_name() == names@[k]@,
            decreases names.len() - i,
        {
            match Self::create_stage(names[i].as_str()) {
                Ok(stage) => {
                    stages.push(stage);
                    enabled.push(names[i].clone());
                },
                Err(e) => {
                    assert(!Stage::known(names@[i as int]@));
                    return Err(e);
                },
            }
            i = i + 1;
        }
        Ok(
            MessagePipeline {
                config: PipelineConfig {
                    enable_sanitization: config.pipeline_config.enable_sanitization,
                    enable_enrichment: config.pipeline_config.enable_enrichment,
                    max_processing_time_ms: config.pipeline_config.max_processing_time_ms,
                    enabled_stages: enabled,
                },
                stages,
                metrics: PipelineMetrics::new(),
            },
        )
    }

    /// Process a message through the stages, one after another. The first
    /// stage that fails ends the run. Where no stage made a response, the
    /// message is acknowledged.
    pub fn process(&mut self, message: Message) -> (r: Result<Response, Error>)
        requires
            old(self).spec_metrics().spec_requests_total() < u64::MAX,
        ensures
            final(self).spec_stages() == old(self).spec_stages(),
            final(self).spec_metrics().spec_requests_total() == old(
                self,
            ).spec_metrics().spec_requests_total() + 1,
            r matches Err(e) ==> e is Validation && exists|i: int|
                0 <= i < old(self).spec_stages().len() && (#[trigger] old(self).spec_stages()[i])
                    is Sanitize,
            r matches Ok(response) ==> response.conversation_id@ == message.conversation_id@,
            old(self).spec_stages().len() == 0 ==> (r matches Ok(response) && response.content@
                == "Message processed successfully"@),
            !message.metadata@.contains_key("format"@) ==> match effects(
                old(self).spec_stages(),
                PipelineContext::initial_view(message),
            ) {
                None => r is Err,
                Some(v) => r is Ok && r->Ok_0.content@ == (match v.answer {
                    Some(a) => a.0,
                    None => "Message processed successfully"@,
                }) && r->Ok_0.response_type == (match v.answer {
                    Some(a) => a.1,
                    None => ResponseType::Text,
                }),
            },
    {
        let started = std::time::Instant::now();
        self.metrics.increment_requests();
        let mut ctx = PipelineContext::new(message);
        let ghost start = ctx.run_view();
        let mut i: usize = 0;
        assert(self.stages@.take(0) =~= Seq::<Stage>::empty());
        while i < self.stages.len()
            invariant
                i <= self.stages.len(),
                start == PipelineContext::initial_view(message),
                !start.asks_for_format ==> !ctx.run_view().asks_for_format,
                !start.asks_for_format ==> effects(self.stages@.take(i as int), start) == Some(
                    ctx.run_view(),
                ),
                self.stages@ == old(self).stages@,
                self.metrics.spec_requests_total() == old(self).metrics.spec_requests_total() + 1,
                ctx.message.conversation_id@ == message.conversation_id@,
                self.stages@.len() == 0 ==> ctx.response is None,
                ctx.response is Some ==> ctx.response->0.conversation_id@
                    == message.conversation_id@,
            decreases self.stages.len() - i,
        {
            proof {
                assert(self.stages@.take(i + 1).drop_last() =~= self.stages@.take(i as int));
                assert(self.stages@.take(i + 1).last() == self.stages@[i as int]);
            }
            match self.stages[i].process(ctx) {
                Ok(next) => {
                    ctx = next;
                },
                Err(e) => {
                    proof {
                        assert(old(self).spec_stages()[i as int] is Sanitize);
                        if !start.asks_for_format {
                            lemma_refusal_is_final(self.stages@, start, i + 1);
                        }
                    }
                    return Err(e);
                },
            }
            i = i + 1;
        }
        assert(self.stages@.take(self.stages@.len() as int) =~= self.stages@);
        let response = Self::generate_response(ctx);
        self.metrics.record_processing_time(millis_since(&started));
        Ok(response)
    }

    /// The response of a finished run: the one that a stage made, or an
    /// acknowledgement
    pub fn generate_response(ctx: PipelineContext) -> (r: Response)
        ensures
            match ctx.response {
                Some(response) => r == response,
                None => r.conversation_id@ == ctx.message.conversation_id@ && r.content@
                    == "Message processed successfully"@ && r.response_type == ResponseType::Text
                    && r.error is None,
            },
    {
        match ctx.response {
            Some(response) => response,
            None => Response::text(
                ctx.message.conversation_id.as_str(),
                "Message processed successfully",
            ),
        }
    }

    /// Add a stage at the end of the pipeline
    pub fn add_stage(&mut self, stage: Stage)
        ensures
            final(self).spec_stages() == old(self).spec_stages().push(stage),
            final(self).spec_metrics() == old(self).spec_metrics(),
    {
        self.stages.push(stage);
    }

    /// Get pipeline metrics
    pub fn metrics(&self) -> (m: &PipelineMetrics)
        ensures
            *m == self.spec_metrics(),
    {
        &self.metrics
    }
}

/// Middleware around the pipeline
pub trait PipelineMiddleware {
    /// Called before pipeline processing
    fn before_pipeline(&self, message: Message) -> Result<Message, Error>;

    /// Called after pipeline processing
    fn after_pipeline(&self, response: Response) -> Result<Response, Error>;
}

/// Logging middleware
#[derive(Debug)]
pub struct LoggingMiddleware {
    enabled: bool,
}

impl LoggingMiddleware {
    /// Create the middleware, enabled
    pub fn new() -> (m: Self)
        ensures
            m.is_enabled(),
    {
        LoggingMiddleware { enabled: true }
    }

    /// Whether the middleware logs.
    pub closed spec fn is_enabled(&self) -> bool {
        self.enabled
    }
}

impl PipelineMiddleware for LoggingMiddleware {
    fn before_pipeline(&self, message: Message) -> (r: Result<Message, Error>)
        ensures
            r == Ok::<Message, Error>(message),
    {
        Ok(message)
    }

    fn after_pipeline(&self, response: Response) -> (r: Result<Response, Error>)
        ensures
            r == Ok::<Response, Error>(response),
    {
        Ok(response)
    }
}

/// Timeout middleware
#[derive(Debug)]
pub struct TimeoutMiddleware {
    timeout_ms: u64,
}

impl TimeoutMiddleware {
    /// Create the middleware with a timeout in milliseconds
    pub fn new(timeout_ms: u64) -> (m: Self)
        ensures
            m.spec_timeout_ms() == timeout_ms,
    {
        TimeoutMiddleware { timeout_ms }
    }

    /// The timeout in milliseconds.
    pub closed spec fn spec_timeout_ms(&self) -> u64 {
        self.timeout_ms
    }

    /// The timeout in milliseconds.
    pub fn timeout_ms(&self) -> (ms: u64)
        ensures
            ms == self.spec_timeout_ms(),
    {
        self.timeout_ms
    }
}

impl PipelineMiddleware for TimeoutMiddleware {
    fn before_pipeline(&self, message: Message) -> (r: Result<Message, Error>)
        ensures
            r == Ok::<Message, Error>(message),
    {
        Ok(message)
    }

    fn after_pipeline(&self, response: Response) -> (r: Result<Response, Error>)
        ensures
            r == Ok::<Response, Error>(response),
    {
        Ok(response)
    }
}

} // verus!
