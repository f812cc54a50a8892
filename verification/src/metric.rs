//! Reading Prometheus replies: the instant-query URL, the sample value of a
//! query reply, and the share-submission timestamps of a metrics page.

use vstd::prelude::*;
use crate::json::{
    as_array, as_str, get, parse_json, spec_as_array, spec_as_str, spec_get, spec_parse_json, spec_json_error, lemma_views_of,
    Json, JsonView,
};
use crate::text::{
    chars_of, decimal_string, is_whitespace, spec_decimal, spec_lines, spec_lines_from,
    spec_words, spec_words_from, string_of, strip_cr, words_of,
};

verus! {

/// The instant-query URL for `metric_name` at the time written `time`.
pub open spec fn spec_metric_query_url(
    prometheus_address: Seq<char>,
    metric_name: Seq<char>,
    time: Seq<char>,
) -> Seq<char> {
    prometheus_address + "/api/v1/query?query="@ + metric_name + " &time="@ + time
}

/// The instant-query URL asks the server at `prometheus_address` for
/// `metric_name` at `time`, written as the query string
/// `query=<name> &time=<time>` under `/api/v1/query`.
pub proof fn lemma_metric_query_url(address: Seq<char>, name: Seq<char>, time: Seq<char>)
    ensures
        spec_metric_query_url(address, name, time) == address + "/api/v1/query?query="@ + name
            + " &time="@ + time,
        spec_metric_query_url(address, name, time).take(address.len() as int) == address,
{
    assert(spec_metric_query_url(address, name, time).take(address.len() as int) =~= address);
}

/// Builds the instant-query URL for `metric_name` at the time written `time`.
pub fn metric_query_url(prometheus_address: &str, metric_name: &str, time: &str) -> (url: String)
    ensures
        url@ == spec_metric_query_url(prometheus_address@, metric_name@, time@),
{
    let mut url = String::from_str(prometheus_address);
    url.append("/api/v1/query?query=");
    url.append(metric_name);
    url.append(" &time=");
    url.append(time);
    url
}

/// Why a metric could not be read from Prometheus.
#[derive(Debug, Clone, PartialEq, Eq)]
pub enum MetricError {
    /// The HTTP request failed; the transport's message.
    Http(String),
    /// The reply was not JSON; the parser's message.
    Json(String),
    /// The reply holds no sample value that reads as a number.
    MissingValue,
}

/// The text of a metric error.
pub open spec fn spec_metric_error_message(e: MetricError) -> Seq<char> {
    match e {
        MetricError::Http(m) => m@,
        MetricError::Json(m) => "Error parsing JSON: "@ + m@,
        MetricError::MissingValue => "Failed to parse metric value"@,
    }
}

impl MetricError {
    /// The text of the error.
    pub fn message(&self) -> (text: String)
        ensures
            text@ == spec_metric_error_message(*self),
    {
        match self {
            MetricError::Http(m) => m.clone(),
            MetricError::Json(m) => {
                let mut text = String::from_str("Error parsing JSON: ");
                text.append(m.as_str());
                text
            },
            MetricError::MissingValue => String::from_str("Failed to parse metric value"),
        }
    }
}

/// The text of the value of the first sample of an instant-query reply: the
/// string at `data.result[0].value[1]`.
pub open spec fn spec_metric_sample(reply: JsonView) -> Option<Seq<char>> {
    match spec_as_array(spec_get(spec_get(Some(reply), "data"@), "result"@)) {
        Some(results) => if results.len() > 0 {
            match spec_as_array(spec_get(Some(results[0]), "value"@)) {
                Some(sample) => if sample.len() > 1 {
                    spec_as_str(Some(sample[1]))
                } else {
                    None
                },
                None => None,
            }
        } else {
            None
        },
        None => None,
    }
}

/// The sample read from a query reply is that of its first series: when
/// `data.result` holds a series whose `value` holds a string at index 1,
/// that string is the sample; and two replies whose `data.result` start
/// with the same series give the same sample, whatever series follow.
pub proof fn lemma_sample_of_first_series(reply: JsonView, other: JsonView)
    ensures
        (match spec_as_array(spec_get(spec_get(Some(reply), "data"@), "result"@)) {
            Some(results) => results.len() > 0 ==> match spec_as_array(
                spec_get(Some(results[0]), "value"@),
            ) {
                Some(sample) => sample.len() > 1 ==> match spec_as_str(Some(sample[1])) {
                    Some(t) => spec_metric_sample(reply) == Some(t),
                    None => true,
                },
                None => true,
            },
            None => true,
        }),
        (match (
            spec_as_array(spec_get(spec_get(Some(reply), "data"@), "result"@)),
            spec_as_array(spec_get(spec_get(Some(other), "data"@), "result"@)),
        ) {
            (Some(a), Some(b)) => (a.len() > 0 && b.len() > 0 && a[0] == b[0]) ==> spec_metric_sample(
                reply,
            ) == spec_metric_sample(other),
            _ => true,
        }),
{
}

/// Reads the text of the value of the first sample of a parsed
/// instant-query reply.
pub fn metric_sample(reply: &Json) -> (value: Option<String>)
    ensures
        match spec_metric_sample(reply@) {
            Some(text) => value matches Some(t) && t@ == text,
            None => value is None,
        },
{
    let results = match as_array(get(get(Some(reply), "data"), "result")) {
        Some(results) => results,
        None => {
            return None;
        },
    };
    proof {
        lemma_views_of(results@);
    }
    if results.len() == 0 {
        return None;
    }
    let sample = match as_array(get(Some(&results[0]), "value")) {
        Some(sample) => sample,
        None => {
            return None;
        },
    };
    proof {
        lemma_views_of(sample@);
    }
    if sample.len() < 2 {
        return None;
    }
    match as_str(Some(&sample[1])) {
        Some(text) => Some(text.to_owned()),
        None => None,
    }
}

/// Reads the text of the value of the first sample of an instant-query reply.
pub fn metric_value_text(body: &str) -> (value: Result<String, MetricError>)
    ensures
        match spec_parse_json(body@) {
            None => value matches Err(MetricError::Json(m)) && m@ == spec_json_error(body@),
            Some(reply) => match spec_metric_sample(reply) {
                Some(text) => value matches Ok(t) && t@ == text,
                None => value == Err::<String, MetricError>(MetricError::MissingValue),
            },
        },
{
    match parse_json(body) {
        Err(message) => Err(MetricError::Json(message)),
        Ok(json) => match metric_sample(&json) {
            Some(text) => Ok(text),
            None => Err(MetricError::MissingValue),
        },
    }
}

/// The start of each line of the share-submission timestamp gauge.
pub open spec fn share_line_prefix() -> Seq<char> {
    "share_submission_timestamp{nonce=\""@
}

/// Whether `needle` occurs in `s`.
pub open spec fn spec_contains(s: Seq<char>, needle: Seq<char>) -> bool {
    exists|i: int| 0 <= i <= s.len() - needle.len() && #[trigger] s.subrange(i, i + needle.len()) == needle
}

/// Whether `line` is a sample of the share-submission timestamp gauge that
/// mentions `nonce_text`.
pub open spec fn is_share_line(line: Seq<char>, nonce_text: Seq<char>) -> bool {
    &&& line.len() >= share_line_prefix().len()
    &&& line.take(share_line_prefix().len() as int) == share_line_prefix()
    &&& spec_contains(line, nonce_text)
}

/// The second word of each of `lines` that is a share line for
/// `nonce_text` and has one, in order.
pub open spec fn spec_share_fields(lines: Seq<Seq<char>>, nonce_text: Seq<char>) -> Seq<Seq<char>>
    decreases lines.len(),
{
    if lines.len() == 0 {
        Seq::empty()
    } else {
        let rest = spec_share_fields(lines.drop_last(), nonce_text);
        let line = lines.last();
        if is_share_line(line, nonce_text) && spec_words(line).len() >= 2 {
            rest.push(spec_words(line)[1])
        } else {
            rest
        }
    }
}

fn matches_at(line: &Vec<char>, needle: &Vec<char>, at: usize) -> (m: bool)
    requires
        at + needle.len() <= line.len(),
    ensures
        m == (line@.subrange(at as int, at + needle.len()) == needle@),
{
    let mut j: usize = 0;
    while j < needle.len()
        invariant
            at + needle.len() <= line.len(),
            j <= needle.len(),
            forall|k: int| 0 <= k < j ==> line@[at + k] == needle@[k],
        decreases needle.len() - j,
    {
        if line[at + j] != needle[j] {
            assert(line@.subrange(at as int, at + needle.len())[j as int] != needle@[j as int]);
            return false;
        }
        j = j + 1;
    }
    assert(line@.subrange(at as int, at + needle.len()) =~= needle@);
    true
}

fn contains(line: &Vec<char>, needle: &Vec<char>) -> (found: bool)
    ensures
        found == spec_contains(line@, needle@),
{
    if needle.len() > line.len() {
        return false;
    }
    if needle.len() == 0 {
        assert(line@.subrange(0int, 0int + needle@.len()) =~= needle@);
        return true;
    }
    let last = line.len() - needle.len();
    let mut i: usize = 0;
    while i <= last
        invariant
            needle.len() >= 1,
            line.len() >= needle.len(),
            last == line.len() - needle.len(),
            i <= last + 1,
            forall|k: int| 0 <= k < i ==> #[trigger] line@.subrange(k, k + needle.len()) != needle@,
        decreases last + 1 - i,
    {
        if matches_at(line, needle, i) {
            return true;
        }
        i = i + 1;
    }
    false
}

/// The second word of `line` when it is a share line for `nonce_text` and
/// has one.
fn share_field(line: &Vec<char>, prefix: &Vec<char>, nonce_text: &Vec<char>) -> (field: Option<
    String,
>)
    requires
        prefix@ == share_line_prefix(),
    ensures
        field matches Some(f) ==> is_share_line(line@, nonce_text@) && spec_words(line@).len() >= 2
            && f@ == spec_words(line@)[1],
        field is None ==> !(is_share_line(line@, nonce_text@) && spec_words(line@).len() >= 2),
{
    if line.len() < prefix.len() {
        return None;
    }
    if !matches_at(line, prefix, 0) {
        return None;
    }
    assert(line@.subrange(0, prefix@.len() as int) == line@.take(prefix@.len() as int));
    if !contains(line, nonce_text) {
        return None;
    }
    let words = words_of(line);
    if words.len() < 2 {
        return None;
    }
    assert(words@.map_values(|w: Vec<char>| w@)[1] == words@[1]@);
    Some(string_of(&words[1]))
}

/// The timestamps that a metrics page records for the share with `nonce`:
/// for each line that starts as a sample of `share_submission_timestamp`
/// and mentions the nonce in decimal, the second whitespace-separated word.
pub fn share_timestamp_texts(body: &str, nonce: u32) -> (texts: Vec<String>)
    ensures
        texts@.map_values(|t: String| t@) == spec_share_fields(
            spec_lines(body@),
            spec_decimal(nonce as nat),
        ),
{
    let chars = chars_of(body);
    let prefix = chars_of("share_submission_timestamp{nonce=\"");
    let nonce_text = chars_of(decimal_string(nonce as u64).as_str());
    let mut texts: Vec<String> = Vec::new();
    let mut cur: Vec<char> = Vec::new();
    let ghost mut done: Seq<Seq<char>> = Seq::empty();
    let mut i: usize = 0;
    assert(chars@.skip(0) == chars@);
    assert(done + spec_lines_from(chars@.skip(0), cur@) =~= spec_lines(body@));
    while i < chars.len()
        invariant
            chars@ == body@,
            prefix@ == share_line_prefix(),
            nonce_text@ == spec_decimal(nonce as nat),
            i <= chars.len(),
            spec_lines(body@) == done + spec_lines_from(chars@.skip(i as int), cur@),
            texts@.map_values(|t: String| t@) == spec_share_fields(done, nonce_text@),
        decreases chars.len() - i,
    {
        let c = chars[i];
        let ghost rest = chars@.skip(i as int);
        let ghost old_cur = cur@;
        assert(rest[0] == c);
        assert(rest.drop_first() == chars@.skip(i + 1));
        if c == '\n' {
            if cur.len() > 0 && cur[cur.len() - 1] == '\r' {
                cur.pop();
            }
            assert(cur@ == strip_cr(old_cur));
            let ghost before = texts@.map_values(|t: String| t@);
            let ghost line = cur@;
            match share_field(&cur, &prefix, &nonce_text) {
                Some(f) => {
                    texts.push(f);
                    assert(texts@.map_values(|t: String| t@) =~= before.push(spec_words(line)[1]));
                },
                None => {},
            }
            proof {
                let new_done = done.push(line);
                assert(new_done.drop_last() == done);
                assert(spec_lines_from(rest, old_cur) == seq![line] + spec_lines_from(
                    chars@.skip(i + 1),
                    Seq::empty(),
                ));
                assert(done + spec_lines_from(rest, old_cur) =~= new_done + spec_lines_from(
                    chars@.skip(i + 1),
                    Seq::empty(),
                ));
                done = new_done;
            }
            cur = Vec::new();
            assert(cur@ =~= Seq::<char>::empty());
        } else {
            cur.push(c);
        }
        i = i + 1;
    }
    assert(chars@.skip(i as int).len() == 0);
    if cur.len() > 0 {
        let ghost before = texts@.map_values(|t: String| t@);
        let ghost line = cur@;
        match share_field(&cur, &prefix, &nonce_text) {
            Some(f) => {
                texts.push(f);
                assert(texts@.map_values(|t: String| t@) =~= before.push(spec_words(line)[1]));
            },
            None => {},
        }
        proof {
            let new_done = done.push(line);
            assert(new_done.drop_last() == done);
            assert(spec_lines(body@) =~= new_done);
            done = new_done;
        }
    } else {
        assert(spec_lines(body@) =~= done);
    }
    texts
}

/// Whether `line` is a sample of the share submission gauge that mentions
/// `nonce_text`, and has a second word, which is `field`.
pub open spec fn share_line_gives(line: Seq<char>, nonce_text: Seq<char>, field: Seq<char>) -> bool {
    &&& line.len() >= "share_submission_timestamp{nonce=\""@.len()
    &&& line.take("share_submission_timestamp{nonce=\""@.len() as int)
        == "share_submission_timestamp{nonce=\""@
    &&& spec_contains(line, nonce_text)
    &&& spec_words(line).len() >= 2
    &&& spec_words(line)[1] == field
}

/// Every timestamp read from a metrics page for a share is the second word
/// of one of the page's lines, a sample of the share submission gauge that
/// mentions the share's nonce; so a page none of whose lines mentions the
/// nonce gives none, and no line gives more than one.
pub proof fn lemma_share_fields_come_from_share_lines(lines: Seq<Seq<char>>, nonce_text: Seq<char>)
    ensures
        forall|k: int|
            #![trigger spec_share_fields(lines, nonce_text)[k]]
            0 <= k < spec_share_fields(lines, nonce_text).len() ==> exists|j: int|
                0 <= j < lines.len() && share_line_gives(
                    #[trigger] lines[j],
                    nonce_text,
                    spec_share_fields(lines, nonce_text)[k],
                ),
        (forall|j: int| 0 <= j < lines.len() ==> !spec_contains(#[trigger] lines[j], nonce_text))
            ==> spec_share_fields(lines, nonce_text).len() == 0,
        spec_share_fields(lines, nonce_text).len() <= lines.len(),
    decreases lines.len(),
{
    if lines.len() > 0 {
        let init = lines.drop_last();
        lemma_share_fields_come_from_share_lines(init, nonce_text);
        let rest = spec_share_fields(init, nonce_text);
        let all = spec_share_fields(lines, nonce_text);
        assert forall|k: int| #![trigger all[k]] 0 <= k < all.len() implies exists|j: int|
            0 <= j < lines.len() && share_line_gives(#[trigger] lines[j], nonce_text, all[k]) by {
            if k < rest.len() {
                assert(all[k] == rest[k]);
                let j = choose|j: int|
                    0 <= j < init.len() && share_line_gives(#[trigger] init[j], nonce_text, rest[k]);
                assert(lines[j] == init[j]);
            } else {
                let j = lines.len() - 1;
                assert(lines[j] == lines.last());
                assert(share_line_gives(lines[j], nonce_text, all[k]));
            }
        }
        if forall|j: int| 0 <= j < lines.len() ==> !spec_contains(#[trigger] lines[j], nonce_text) {
            assert forall|j: int| 0 <= j < init.len() implies !spec_contains(#[trigger] init[j], nonce_text) by {
                assert(init[j] == lines[j]);
            }
            assert(!spec_contains(lines[lines.len() - 1], nonce_text));
        }
    }
}

/// The timestamps of a page are read line by line, in the page's order:
/// those of two runs of lines are those of the first run, then those of the
/// second.
pub proof fn lemma_share_fields_in_order(
    first: Seq<Seq<char>>,
    second: Seq<Seq<char>>,
    nonce_text: Seq<char>,
)
    ensures
        spec_share_fields(first + second, nonce_text) == spec_share_fields(first, nonce_text)
            + spec_share_fields(second, nonce_text),
    decreases second.len(),
{
    if second.len() == 0 {
        assert(first + second =~= first);
        assert(spec_share_fields(first, nonce_text) + spec_share_fields(second, nonce_text)
            =~= spec_share_fields(first, nonce_text));
    } else {
        lemma_share_fields_in_order(first, second.drop_last(), nonce_text);
        assert((first + second).drop_last() =~= first + second.drop_last());
        assert((first + second).last() == second.last());
        let a = spec_share_fields(first, nonce_text);
        let b = spec_share_fields(second.drop_last(), nonce_text);
        let line = second.last();
        if is_share_line(line, nonce_text) && spec_words(line).len() >= 2 {
            assert((a + b).push(spec_words(line)[1]) =~= a + b.push(spec_words(line)[1]));
        }
    }
}

/// The sample line that the share-submission timestamp gauge exports for
/// the share with `nonce` at the time written `timestamp`, as the Prometheus
/// text format writes it: name, label set, one space, value, newline.
pub open spec fn spec_share_sample(nonce: u32, timestamp: Seq<char>) -> Seq<char> {
    share_line_prefix() + spec_decimal(nonce as nat) + "\"}"@ + seq![' '] + timestamp + seq!['\n']
}

proof fn lemma_decimal_digits(n: nat)
    ensures
        spec_decimal(n).len() > 0,
        forall|i: int| 0 <= i < spec_decimal(n).len() ==> '0' <= #[trigger] spec_decimal(n)[i] <= '9',
    decreases n,
{
    if n >= 10 {
        lemma_decimal_digits(n / 10);
    }
}

proof fn lemma_words_skip_word(s: Seq<char>, rest: Seq<char>, cur: Seq<char>)
    requires
        forall|i: int| 0 <= i < s.len() ==> !is_whitespace(#[trigger] s[i]),
    ensures
        spec_words_from(s + rest, cur) == spec_words_from(rest, cur + s),
    decreases s.len(),
{
    if s.len() > 0 {
        assert((s + rest)[0] == s[0]);
        assert((s + rest).drop_first() == s.drop_first() + rest);
        lemma_words_skip_word(s.drop_first(), rest, cur.push(s[0]));
        assert(cur.push(s[0]) + s.drop_first() == cur + s);
    } else {
        assert(s + rest == rest);
        assert(cur + s == cur);
    }
}

proof fn lemma_lines_one_line(s: Seq<char>, cur: Seq<char>)
    requires
        forall|i: int| 0 <= i < s.len() ==> #[trigger] s[i] != '\n',
    ensures
        spec_lines_from(s + seq!['\n'], cur) == seq![strip_cr(cur + s)],
    decreases s.len(),
{
    if s.len() > 0 {
        assert((s + seq!['\n'])[0] == s[0]);
        assert((s + seq!['\n']).drop_first() == s.drop_first() + seq!['\n']);
        lemma_lines_one_line(s.drop_first(), cur.push(s[0]));
        assert(cur.push(s[0]) + s.drop_first() == cur + s);
    } else {
        assert(s + seq!['\n'] == seq!['\n']);
        assert(seq!['\n'].drop_first() == Seq::<char>::empty());
        assert(cur + s == cur);
        assert(spec_lines_from(Seq::<char>::empty(), Seq::empty()) == Seq::<Seq<char>>::empty());
        assert(seq![strip_cr(cur)] + Seq::<Seq<char>>::empty() == seq![strip_cr(cur)]);
    }
}

/// What a translator proxy exports for a submitted share is found again by
/// the solution interceptor of a template proxy: reading a metrics page
/// that holds the sample line for `nonce` gives back its timestamp.
pub proof fn lemma_share_sample_found(nonce: u32, timestamp: Seq<char>)
    requires
        timestamp.len() > 0,
        forall|i: int| 0 <= i < timestamp.len() ==> !is_whitespace(#[trigger] timestamp[i]),
    ensures
        spec_share_fields(spec_lines(spec_share_sample(nonce, timestamp)), spec_decimal(nonce as nat))
            == seq![timestamp],
{
    reveal_strlit("share_submission_timestamp{nonce=\"");
    reveal_strlit("\"}");
    let prefix = share_line_prefix();
    let digits = spec_decimal(nonce as nat);
    lemma_decimal_digits(nonce as nat);
    let name = prefix + digits + "\"}"@;
    assert forall|i: int| 0 <= i < name.len() implies !is_whitespace(#[trigger] name[i]) by {
        if i < prefix.len() {
            assert(name[i] == prefix[i]);
        } else if i < prefix.len() + digits.len() {
            assert(name[i] == digits[i - prefix.len()]);
        } else {
            assert(name[i] == "\"}"@[i - prefix.len() - digits.len()]);
        }
    }
    let line = name + seq![' '] + timestamp;
    assert forall|i: int| 0 <= i < line.len() implies #[trigger] line[i] != '\n' by {
        if i < name.len() {
            assert(line[i] == name[i]);
        } else if i > name.len() {
            assert(line[i] == timestamp[i - name.len() - 1]);
        }
    }
    assert(spec_share_sample(nonce, timestamp) == line + seq!['\n']);
    lemma_lines_one_line(line, Seq::empty());
    assert(Seq::<char>::empty() + line == line);
    assert(line.last() == timestamp.last());
    assert(strip_cr(line) == line);
    let lines = spec_lines(spec_share_sample(nonce, timestamp));
    assert(lines == seq![line]);
    // the words of the line: its name and label set, then the timestamp
    lemma_words_skip_word(name, seq![' '] + timestamp, Seq::empty());
    assert(line == name + (seq![' '] + timestamp));
    assert(Seq::<char>::empty() + name == name);
    let after = seq![' '] + timestamp;
    assert(after[0] == ' ');
    assert(after.drop_first() == timestamp);
    assert(spec_words_from(after, name) == seq![name] + spec_words_from(timestamp, Seq::empty()));
    lemma_words_skip_word(timestamp, Seq::empty(), Seq::empty());
    assert(timestamp + Seq::<char>::empty() == timestamp);
    assert(Seq::<char>::empty() + timestamp == timestamp);
    assert(spec_words_from(timestamp, Seq::empty()) == seq![timestamp]);
    assert(spec_words(line) == seq![name, timestamp]);
    // the line starts as a share sample and mentions the nonce
    assert(line.take(prefix.len() as int) == prefix);
    assert(line.subrange(prefix.len() as int, (prefix.len() + digits.len()) as int) == digits);
    assert(is_share_line(line, digits));
    assert(lines.drop_last() == Seq::<Seq<char>>::empty());
    assert(lines.last() == line);
    assert(spec_share_fields(Seq::<Seq<char>>::empty(), digits) == Seq::<Seq<char>>::empty());
    assert(Seq::<Seq<char>>::empty().push(timestamp) == seq![timestamp]);
}

} // verus!
