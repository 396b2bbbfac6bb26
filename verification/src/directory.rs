//! The stream directory: descriptors of discovered streams, selection
//! of the target stream by display name and source identifier (or, on
//! the sampling thread's second resolve, by hostname and source
//! identifier), the session's channel labels, and the diagnostic
//! report over every discovered stream.

use vstd::prelude::*;
use vstd::string::StringExecFns;
use crate::numfmt::{dec_digits, u64_to_string, usize_to_string};
use crate::xml::{XmlNode, name_text, type_text, extract_name, extract_type};

verus! {

/// Immutable snapshot of one discovered stream. The nominal sample
/// rate is reported by the source as a floating-point number, which
/// the library does not hold; the caller renders it once and the
/// snapshot carries the text.
pub struct DiscoveredStream {
    /// Parsed self-description, or nothing where the source offered no
    /// readable document.
    pub metadata: Option<XmlNode>,
    pub source_id: String,
    pub hostname: String,
    pub channel_count: u32,
    /// The nominal sample rate, already rendered as text.
    pub srate_text: String,
}

/// Display name of a stream: the `name` element of its metadata.
pub open spec fn display_name(s: DiscoveredStream) -> Option<Seq<char>> {
    match s.metadata {
        None => None,
        Some(doc) => name_text(doc),
    }
}

/// Whether a stream is the one asked for: its metadata-derived display
/// name equals `name` — a stream without one never matches — and its
/// source identifier equals `source_id`. Exact match only.
pub open spec fn matches_query(s: DiscoveredStream, name: Seq<char>, source_id: Seq<char>) -> bool {
    display_name(s) == Some(name) && s.source_id@ == source_id
}

/// Whether a stream carries the given hostname and source identifier,
/// the identity the sampling thread re-matches by.
pub open spec fn matches_host(s: DiscoveredStream, hostname: Seq<char>, source_id: Seq<char>) -> bool {
    s.hostname@ == hostname && s.source_id@ == source_id
}

fn stream_matches(s: &DiscoveredStream, name: &String, source_id: &String) -> (r: bool)
    ensures
        r == matches_query(*s, name@, source_id@),
{
    let name_found = match &s.metadata {
        None => false,
        Some(doc) => match extract_name(doc) {
            None => false,
            Some(n) => n == *name,
        },
    };
    name_found && s.source_id == *source_id
}

/// The first discovered stream matching `name` and `source_id`;
/// duplicates further on are a misconfiguration of the source and are
/// not considered.
pub fn match_stream(streams: &Vec<DiscoveredStream>, name: &String, source_id: &String) -> (r:
    Option<usize>)
    ensures
        match r {
            Some(i) => {
                &&& i < streams@.len()
                &&& matches_query(streams@[i as int], name@, source_id@)
                &&& forall|j: int|
                    0 <= j < i ==> !matches_query(streams@[j], name@, source_id@)
            },
            None => forall|j: int|
                0 <= j < streams@.len() ==> !matches_query(streams@[j], name@, source_id@),
        },
{
    let mut i: usize = 0;
    while i < streams.len()
        invariant
            i <= streams@.len(),
            forall|j: int| 0 <= j < i ==> !matches_query(streams@[j], name@, source_id@),
        decreases streams@.len() - i,
    {
        if stream_matches(&streams[i], name, source_id) {
            return Some(i);
        }
        i += 1;
    }
    None
}

/// The first discovered stream carrying `hostname` and `source_id`.
pub fn match_by_host(streams: &Vec<DiscoveredStream>, hostname: &String, source_id: &String) -> (r:
    Option<usize>)
    ensures
        match r {
            Some(i) => {
                &&& i < streams@.len()
                &&& matches_host(streams@[i as int], hostname@, source_id@)
                &&& forall|j: int|
                    0 <= j < i ==> !matches_host(streams@[j], hostname@, source_id@)
            },
            None => forall|j: int|
                0 <= j < streams@.len() ==> !matches_host(streams@[j], hostname@, source_id@),
        },
{
    let mut i: usize = 0;
    while i < streams.len()
        invariant
            i <= streams@.len(),
            forall|j: int| 0 <= j < i ==> !matches_host(streams@[j], hostname@, source_id@),
        decreases streams@.len() - i,
    {
        if streams[i].hostname == *hostname && streams[i].source_id == *source_id {
            return Some(i);
        }
        i += 1;
    }
    None
}

/// The label of channel `i`.
pub open spec fn channel_label(i: nat) -> Seq<char> {
    "Ch"@ + dec_digits(i)
}

/// The session's channel labels, one per channel, derived once at
/// connect time and shared by every batch.
pub fn channel_names(count: u32) -> (r: Vec<String>)
    ensures
        r@.len() == count,
        forall|i: int| 0 <= i < count ==> (#[trigger] r@[i])@ == channel_label(i as nat),
{
    let mut v: Vec<String> = Vec::new();
    let mut i: u32 = 0;
    while i < count
        invariant
            i <= count,
            v@.len() == i,
            forall|j: int| 0 <= j < i ==> (#[trigger] v@[j])@ == channel_label(j as nat),
        decreases count - i,
    {
        let mut label = String::from_str("Ch");
        let digits = u64_to_string(i as u64);
        label.append(digits.as_str());
        v.push(label);
        i += 1;
    }
    v
}

/// The name line of a report entry: the display name, or `unnamed`
/// where the stream has none.
pub open spec fn name_or_unnamed(s: DiscoveredStream) -> Seq<char> {
    match display_name(s) {
        Some(n) => n,
        None => "unnamed"@,
    }
}

/// The type line of a report entry: the metadata's `type` text, or
/// `unknown` where the stream declares none.
pub open spec fn type_or_unknown(s: DiscoveredStream) -> Seq<char> {
    match s.metadata {
        None => "unknown"@,
        Some(doc) => match type_text(doc) {
            Some(t) => t,
            None => "unknown"@,
        },
    }
}

/// One stream's lines of the diagnostic report.
pub open spec fn entry_text(s: DiscoveredStream) -> Seq<char> {
    "- Name: "@ + name_or_unnamed(s) + "\n  Host: "@ + s.hostname@ + "\n  Source ID: "@
        + s.source_id@ + "\n  Type: "@ + type_or_unknown(s) + "\n  Rate: "@ + s.srate_text@
        + " Hz\n  Channels: "@ + dec_digits(s.channel_count as nat) + "\n"@
}

/// The report entries of all streams, in discovery order.
pub open spec fn entries_text(ss: Seq<DiscoveredStream>) -> Seq<char>
    decreases ss.len(),
{
    if ss.len() == 0 {
        Seq::<char>::empty()
    } else {
        entry_text(ss[0]) + entries_text(ss.drop_first())
    }
}

/// The line that opens a non-empty report, stating the stream count.
pub open spec fn count_line(n: nat) -> Seq<char> {
    "Found "@ + dec_digits(n) + " streams:\n"@
}

/// The whole diagnostic report: a fixed sentence when nothing was
/// discovered, else the count line followed by one entry per stream.
pub open spec fn report_text(ss: Seq<DiscoveredStream>) -> Seq<char> {
    if ss.len() == 0 {
        "No streams found."@
    } else {
        count_line(ss.len()) + entries_text(ss)
    }
}

/// Adding one stream at the back of the directory appends its entry at
/// the back of the entries.
proof fn lemma_entries_snoc(ss: Seq<DiscoveredStream>)
    requires
        ss.len() > 0,
    ensures
        entries_text(ss) == entries_text(ss.drop_last()) + entry_text(ss.last()),
    decreases ss.len(),
{
    if ss.len() == 1 {
        assert(ss.drop_first() =~= Seq::<DiscoveredStream>::empty());
        assert(ss.drop_last() =~= Seq::<DiscoveredStream>::empty());
        assert(entries_text(ss) =~= entries_text(ss.drop_last()) + entry_text(ss.last()));
    } else {
        lemma_entries_snoc(ss.drop_first());
        assert(ss.drop_first().drop_last() =~= ss.drop_last().drop_first());
        assert(ss.drop_first().last() == ss.last());
        assert(ss.drop_last()[0] == ss[0]);
        assert(entries_text(ss) =~= entries_text(ss.drop_last()) + entry_text(ss.last()));
    }
}

fn append_entry(out: &mut String, s: &DiscoveredStream)
    ensures
        final(out)@ == old(out)@ + entry_text(*s),
{
    out.append("- Name: ");
    match &s.metadata {
        None => out.append("unnamed"),
        Some(doc) => match extract_name(doc) {
            None => out.append("unnamed"),
            Some(n) => out.append(n.as_str()),
        },
    }
    out.append("\n  Host: ");
    out.append(s.hostname.as_str());
    out.append("\n  Source ID: ");
    out.append(s.source_id.as_str());
    out.append("\n  Type: ");
    match &s.metadata {
        None => out.append("unknown"),
        Some(doc) => match extract_type(doc) {
            None => out.append("unknown"),
            Some(t) => out.append(t.as_str()),
        },
    }
    out.append("\n  Rate: ");
    out.append(s.srate_text.as_str());
    out.append(" Hz\n  Channels: ");
    let digits = u64_to_string(s.channel_count as u64);
    out.append(digits.as_str());
    out.append("\n");
    proof {
        assert(out@ =~= old(out)@ + entry_text(*s));
    }
}

/// The diagnostic report over every discovered stream.
pub fn debug_streams_report(streams: &Vec<DiscoveredStream>) -> (r: String)
    ensures
        r@ == report_text(streams@),
{
    if streams.len() == 0 {
        return String::from_str("No streams found.");
    }
    let mut out = String::from_str("Found ");
    let count = usize_to_string(streams.len());
    out.append(count.as_str());
    out.append(" streams:\n");
    proof {
        assert(streams@.take(0) =~= Seq::<DiscoveredStream>::empty());
        assert(out@ =~= count_line(streams@.len()) + entries_text(streams@.take(0)));
    }
    let mut i: usize = 0;
    while i < streams.len()
        invariant
            i <= streams@.len(),
            out@ == count_line(streams@.len()) + entries_text(streams@.take(i as int)),
        decreases streams@.len() - i,
    {
        append_entry(&mut out, &streams[i]);
        proof {
            let taken = streams@.take(i as int + 1);
            assert(taken.drop_last() =~= streams@.take(i as int));
            assert(taken.last() == streams@[i as int]);
            lemma_entries_snoc(taken);
            assert(out@ =~= count_line(streams@.len()) + entries_text(taken));
        }
        i += 1;
    }
    proof {
        assert(streams@.take(streams@.len() as int) =~= streams@);
    }
    out
}

/// A non-empty report opens with the line stating the stream count:
/// the count line is a prefix of the report, and nothing of the report
/// before its first line break differs from it.
pub proof fn lemma_report_first_line(ss: Seq<DiscoveredStream>)
    requires
        ss.len() > 0,
    ensures
        report_text(ss).take(count_line(ss.len()).len() as int) == count_line(ss.len()),
{
    assert(report_text(ss).take(count_line(ss.len()).len() as int) =~= count_line(ss.len()));
}

} // verus!
