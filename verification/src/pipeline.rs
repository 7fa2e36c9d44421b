use vstd::prelude::*;

use crate::models::TranscriptItem;

verus! {

/// Instructions for transcribing a recording.
pub const TRANSCRIPTION_PROMPT: &'static str = "You are a specialized audio transcription system. \
    Analyze the provided audio and generate a full transcript in its original language. \
    Provide timestamps and speaker diarization (e.g., 'Speaker A', 'Speaker B'). \
    To ensure the full transcript fits in the response, group consecutive sentences from the same speaker into larger blocks (aim for 30-60 seconds per block when possible). \
    Output strictly as a JSON array of objects, with each object having exactly these keys: \
    'start_time' (string, e.g., '00:00:00'), 'end_time' (string), 'speaker' (string), 'text' (string). \
    Do not include any other text, markdown blocks, or explanation. Ensure valid JSON format.";

/// Instructions for splitting a transcript into topics.
pub const TOPICS_PROMPT: &'static str = "Analyze the provided meeting transcript and perform topic segmentation. \
    The output (title and description) MUST be in the same language as the transcript (e.g., if the transcript is in Spanish, the response must be in Spanish). \
    Group the discussion into distinct topics based on chronological time. \
    Output strictly as a JSON array of objects with exactly these keys: \
    'start_time' (string), 'end_time' (string), 'title' (string, short summary of topic), \
    'description' (string, detailed explanation). \
    Do not include any other text or markdown formatting. Ensure valid JSON format.";

/// Instructions for the executive summary.
pub const SUMMARY_PROMPT: &'static str = "Analyze the provided meeting transcript and generate an executive summary. \
    The summary MUST be in the same language as the transcript (e.g., if the transcript is in Spanish, the response must be in Spanish). \
    The summary should capture the main goals, decisions, and overall outcomes. \
    Output strictly as a JSON object with a single key 'executive_summary' containing an array of strings (bullet points). \
    Do not include any other text or markdown formatting. Ensure valid JSON format.";

/// Instructions for extracting action items.
pub const ACTION_ITEMS_PROMPT: &'static str = "Analyze the provided meeting transcript and extract all action items and tasks. \
    The output (task, owner, deadline, priority) MUST be in the same language as the transcript where applicable, but maintaining the JSON structure. \
    For 'priority', use equivalent terms (e.g., 'Alta', 'Media', 'Baja' for Spanish). \
    Output strictly as a JSON array of objects with exactly these keys: \
    'task' (string), 'owner' (string or null if not explicitly identified), \
    'deadline' (string or null if not identified), 'priority' (string, or null). \
    Do not include any other text or markdown formatting. Ensure valid JSON format.";

/// Instructions for extracting highlights.
pub const HIGHLIGHTS_PROMPT: &'static str = "Analyze the provided meeting transcript and extract key highlights or memorable quotes. \
    The output (description and reason) MUST be in the same language as the transcript (e.g., if the transcript is in Spanish, the response must be in Spanish). \
    Output strictly as a JSON array of objects with exactly these keys: \
    'start_time' (string), 'end_time' (string), 'description' (string, the highlight or quote), \
    'reason' (string, why this is a highlight). \
    Do not include any other text or markdown formatting. Ensure valid JSON format.";

/// Instructions for the session title.
pub const TITLE_PROMPT: &'static str = "Analyze the provided meeting transcript and generate a concise and descriptive title for the session. \
    The title MUST be in the same language as the transcript. \
    Output strictly as a JSON object with a single key 'title' containing the string value. \
    Do not include any other text or markdown formatting. Ensure valid JSON format.";

/// `s` ends with `suffix`.
pub open spec fn ends_with(s: Seq<char>, suffix: Seq<char>) -> bool {
    suffix.len() <= s.len() && s.subrange(s.len() - suffix.len(), s.len() as int) == suffix
}

/// The MIME type assumed for a recording, from the extension of its URL.
pub open spec fn mime_type_spec(url: Seq<char>) -> Seq<char> {
    if ends_with(url, ".m4a"@) {
        "audio/mp4"@
    } else if ends_with(url, ".wav"@) {
        "audio/wav"@
    } else {
        "audio/mpeg"@
    }
}

fn ends_with_exec(s: &str, suffix: &str) -> (r: bool)
    ensures
        r == ends_with(s@, suffix@),
{
    let n = s.unicode_len();
    let k = suffix.unicode_len();
    if k > n {
        return false;
    }
    let mut i: usize = 0;
    while i < k
        invariant
            n == s@.len(),
            k == suffix@.len(),
            k <= n,
            i <= k,
            forall|j: int| 0 <= j < i ==> s@[n - k + j] == suffix@[j],
        decreases k - i,
    {
        if s.get_char(n - k + i) != suffix.get_char(i) {
            assert(s@.subrange(n - k, n as int)[i as int] != suffix@[i as int]);
            return false;
        }
        i = i + 1;
    }
    assert(s@.subrange(n - k, n as int) =~= suffix@);
    true
}

/// The MIME type of a recording, judged by the extension of its URL
/// (`.m4a`, `.wav`, and MP3 otherwise).
pub fn mime_type_for_url(audio_url: &str) -> (m: &'static str)
    ensures
        m@ == mime_type_spec(audio_url@),
{
    if ends_with_exec(audio_url, ".m4a") {
        "audio/mp4"
    } else if ends_with_exec(audio_url, ".wav") {
        "audio/wav"
    } else {
        "audio/mpeg"
    }
}

} // verus!

verus! {

/// The pieces of `s` between `:` separators, in order; there is always at least one.
pub open spec fn split_colons(s: Seq<char>) -> Seq<Seq<char>>
    decreases s.len(),
{
    if s.len() == 0 {
        seq![Seq::empty()]
    } else {
        let init = split_colons(s.drop_last());
        if s.last() == ':' {
            init.push(Seq::empty())
        } else {
            init.update(init.len() - 1, init.last().push(s.last()))
        }
    }
}

/// Pieces put back together with `:` between them.
pub open spec fn join_colons(parts: Seq<Seq<char>>) -> Seq<char>
    decreases parts.len(),
{
    if parts.len() == 0 {
        Seq::empty()
    } else if parts.len() == 1 {
        parts[0]
    } else {
        join_colons(parts.drop_last()) + seq![':'] + parts.last()
    }
}

pub proof fn lemma_split_colons_nonempty(s: Seq<char>)
    ensures
        split_colons(s).len() >= 1,
    decreases s.len(),
{
    if s.len() > 0 {
        lemma_split_colons_nonempty(s.drop_last());
    }
}

/// Splitting at the colons and joining with colons gives the text back.
pub proof fn lemma_join_split_colons(s: Seq<char>)
    ensures
        join_colons(split_colons(s)) == s,
    decreases s.len(),
{
    if s.len() > 0 {
        let init = split_colons(s.drop_last());
        lemma_split_colons_nonempty(s.drop_last());
        lemma_join_split_colons(s.drop_last());
        if s.last() == ':' {
            assert(split_colons(s).drop_last() =~= init);
            assert(s =~= s.drop_last() + seq![':'] + Seq::<char>::empty());
        } else {
            let parts = split_colons(s);
            if init.len() == 1 {
                assert(parts[0] == init[0].push(s.last()));
                assert(s =~= s.drop_last().push(s.last()));
            } else {
                assert(parts.drop_last() =~= init.drop_last());
                let a = join_colons(init.drop_last());
                assert(join_colons(init) == a + seq![':'] + init.last());
                assert(join_colons(init) == s.drop_last());
                assert(s =~= s.drop_last().push(s.last()));
                assert(s =~= a + seq![':'] + init.last().push(s.last()));
            }
        }
    }
}

/// One piece of a timestamp and how many seconds one unit of it stands for.
#[derive(Debug, Clone)]
pub struct TimestampField {
    pub text: String,
    pub seconds_per_unit: u32,
}

pub open spec fn field_view(f: TimestampField) -> (Seq<char>, nat) {
    (f.text@, f.seconds_per_unit as nat)
}

/// How a timestamp is read: `HH:MM:SS` as hours, minutes and seconds, `MM:SS` as
/// minutes and seconds, and anything else as a plain number of seconds.
pub open spec fn timestamp_fields_spec(ts: Seq<char>) -> Seq<(Seq<char>, nat)> {
    let parts = split_colons(ts);
    if parts.len() == 3 {
        seq![(parts[0], 3600nat), (parts[1], 60nat), (parts[2], 1nat)]
    } else if parts.len() == 2 {
        seq![(parts[0], 60nat), (parts[1], 1nat)]
    } else {
        seq![(ts, 1nat)]
    }
}

fn split_colons_exec(s: &str) -> (parts: Vec<String>)
    ensures
        parts@.map_values(|p: String| p@) =~~= split_colons(s@),
{
    let n = s.unicode_len();
    let mut parts: Vec<String> = Vec::new();
    let mut start: usize = 0;
    let mut i: usize = 0;
    assert(parts@.map_values(|p: String| p@).push(s@.subrange(0, 0)) =~~= split_colons(
        s@.take(0),
    ));
    while i < n
        invariant
            n == s@.len(),
            start <= i <= n,
            split_colons(s@.take(i as int)) =~~= parts@.map_values(|p: String| p@).push(
                s@.subrange(start as int, i as int),
            ),
        decreases n - i,
    {
        let c = s.get_char(i);
        let ghost before = parts@.map_values(|p: String| p@);
        let ghost piece_view = s@.subrange(start as int, i as int);
        assert(s@.take(i + 1).drop_last() =~= s@.take(i as int));
        assert(s@.take(i + 1).last() == c);
        proof {
            lemma_split_colons_nonempty(s@.take(i as int));
        }
        if c == ':' {
            let piece = s.substring_char(start, i);
            parts.push(String::from_str(piece));
            start = i + 1;
            assert(parts@.map_values(|p: String| p@) =~~= before.push(piece_view));
            assert(parts@.map_values(|p: String| p@).push(s@.subrange(start as int, i + 1))
                =~~= split_colons(s@.take(i + 1)));
        } else {
            assert(s@.subrange(start as int, i + 1) =~= piece_view.push(c));
            assert(parts@.map_values(|p: String| p@).push(s@.subrange(start as int, i + 1))
                =~~= split_colons(s@.take(i + 1)));
        }
        i = i + 1;
    }
    let ghost before = parts@.map_values(|p: String| p@);
    let last = s.substring_char(start, n);
    parts.push(String::from_str(last));
    assert(s@.take(n as int) =~= s@);
    assert(parts@.map_values(|p: String| p@) =~~= before.push(s@.subrange(start as int, n as int)));
    parts
}

/// The pieces of a timestamp and the seconds per unit of each; the
/// timestamp's value is the sum of each piece read as a number times its
/// seconds per unit.
pub fn timestamp_fields(ts: &str) -> (fields: Vec<TimestampField>)
    ensures
        fields@.map_values(|f: TimestampField| field_view(f)) =~~= timestamp_fields_spec(ts@),
{
    let mut parts = split_colons_exec(ts);
    let ghost pv = parts@.map_values(|p: String| p@);
    let mut fields: Vec<TimestampField> = Vec::new();
    if parts.len() == 3 {
        let seconds = parts.pop().unwrap();
        let minutes = parts.pop().unwrap();
        let hours = parts.pop().unwrap();
        assert(hours@ == pv[0] && minutes@ == pv[1] && seconds@ == pv[2]);
        fields.push(TimestampField { text: hours, seconds_per_unit: 3600 });
        fields.push(TimestampField { text: minutes, seconds_per_unit: 60 });
        fields.push(TimestampField { text: seconds, seconds_per_unit: 1 });
    } else if parts.len() == 2 {
        let seconds = parts.pop().unwrap();
        let minutes = parts.pop().unwrap();
        assert(minutes@ == pv[0] && seconds@ == pv[1]);
        fields.push(TimestampField { text: minutes, seconds_per_unit: 60 });
        fields.push(TimestampField { text: seconds, seconds_per_unit: 1 });
    } else {
        fields.push(TimestampField { text: String::from_str(ts), seconds_per_unit: 1 });
    }
    fields
}

/// The pieces of a timestamp, joined with `:`, give the timestamp back.
pub proof fn lemma_timestamp_fields_cover_text(ts: Seq<char>)
    ensures
        join_colons(timestamp_fields_spec(ts).map_values(|f: (Seq<char>, nat)| f.0)) == ts,
{
    let parts = split_colons(ts);
    lemma_join_split_colons(ts);
    let texts = timestamp_fields_spec(ts).map_values(|f: (Seq<char>, nat)| f.0);
    if parts.len() == 3 {
        assert(texts =~~= parts);
    } else if parts.len() == 2 {
        assert(texts =~~= parts);
    } else {
        assert(texts =~~= seq![ts]);
    }
}

/// The distinct names of `names`, in the order of their first appearance.
pub open spec fn first_appearances(names: Seq<Seq<char>>) -> Seq<Seq<char>>
    decreases names.len(),
{
    if names.len() == 0 {
        Seq::empty()
    } else {
        let init = first_appearances(names.drop_last());
        if init.contains(names.last()) {
            init
        } else {
            init.push(names.last())
        }
    }
}

/// The speakers of a transcript, one per item.
pub open spec fn speakers_of(transcript: Seq<TranscriptItem>) -> Seq<Seq<char>> {
    transcript.map_values(|t: TranscriptItem| t.speaker@)
}

/// The speakers of a transcript and, for each item, which of them spoke it.
#[derive(Debug, Clone)]
pub struct SpeakerGroups {
    pub speakers: Vec<String>,
    pub group_of: Vec<usize>,
}

impl SpeakerGroups {
    pub open spec fn speaker_names(&self) -> Seq<Seq<char>> {
        self.speakers@.map_values(|s: String| s@)
    }

    /// `group_of` sends every item to the entry of `speakers` that is its speaker.
    pub open spec fn assigns(&self, names: Seq<Seq<char>>) -> bool {
        &&& self.group_of@.len() == names.len()
        &&& forall|i: int|
            0 <= i < names.len() ==> {
                &&& (#[trigger] self.group_of@[i]) < self.speakers@.len()
                &&& self.speakers@[self.group_of@[i] as int]@ == names[i]
            }
    }
}

proof fn lemma_first_appearances_distinct(names: Seq<Seq<char>>)
    ensures
        first_appearances(names).no_duplicates(),
        forall|x: Seq<char>| first_appearances(names).contains(x) <==> names.contains(x),
    decreases names.len(),
{
    if names.len() > 0 {
        let init = first_appearances(names.drop_last());
        lemma_first_appearances_distinct(names.drop_last());
        assert forall|x: Seq<char>| names.contains(x) <==> (names.drop_last().contains(x) || x
            == names.last()) by {
            if names.contains(x) {
                let k = choose|k: int| 0 <= k < names.len() && names[k] == x;
                if k < names.len() - 1 {
                    assert(names.drop_last()[k] == x);
                }
            }
            if names.drop_last().contains(x) {
                let k = choose|k: int| 0 <= k < names.drop_last().len() && names.drop_last()[k] == x;
                assert(names[k] == x);
            }
        }
        if !init.contains(names.last()) {
            assert forall|x: Seq<char>| init.push(names.last()).contains(x) <==> (init.contains(x)
                || x == names.last()) by {
                if init.push(names.last()).contains(x) {
                    let k = choose|k: int| 0 <= k < init.len() + 1 && init.push(names.last())[k] == x;
                    if k < init.len() {
                        assert(init[k] == x);
                    }
                }
                if init.contains(x) {
                    let k = choose|k: int| 0 <= k < init.len() && init[k] == x;
                    assert(init.push(names.last())[k] == x);
                }
                if x == names.last() {
                    assert(init.push(names.last())[init.len() as int] == x);
                }
            }
        }
    }
}

fn position_of(speakers: &Vec<String>, name: &String) -> (r: Option<usize>)
    ensures
        match r {
            Some(k) => k < speakers@.len() && speakers@[k as int]@ == name@,
            None => !speakers@.map_values(|s: String| s@).contains(name@),
        },
{
    let mut k: usize = 0;
    while k < speakers.len()
        invariant
            k <= speakers@.len(),
            forall|j: int| 0 <= j < k ==> speakers@[j]@ != name@,
        decreases speakers.len() - k,
    {
        if speakers[k] == *name {
            return Some(k);
        }
        k = k + 1;
    }
    let ghost names = speakers@.map_values(|s: String| s@);
    assert forall|j: int| 0 <= j < names.len() implies #[trigger] names[j] != name@ by {
        assert(names[j] == speakers@[j]@);
    }
    None
}

/// Groups transcript items by speaker: the distinct speakers in the order in
/// which they first speak, and for each item the position of its speaker.
pub fn speaker_groups(transcript: &Vec<TranscriptItem>) -> (g: SpeakerGroups)
    ensures
        g.speaker_names() =~~= first_appearances(speakers_of(transcript@)),
        g.assigns(speakers_of(transcript@)),
{
    let mut g = SpeakerGroups { speakers: Vec::new(), group_of: Vec::new() };
    let mut i: usize = 0;
    let ghost names = speakers_of(transcript@);
    assert(names.take(0) =~= Seq::<Seq<char>>::empty());
    while i < transcript.len()
        invariant
            i <= transcript@.len(),
            names == speakers_of(transcript@),
            g.speaker_names() =~~= first_appearances(names.take(i as int)),
            g.assigns(names.take(i as int)),
        decreases transcript.len() - i,
    {
        let speaker = &transcript[i].speaker;
        assert(names.take(i + 1).drop_last() =~= names.take(i as int));
        assert(names.take(i + 1).last() == speaker@);
        let ghost before = g.speaker_names();
        match position_of(&g.speakers, speaker) {
            Some(k) => {
                assert(before[k as int] == speaker@);
                assert(before.contains(speaker@));
                g.group_of.push(k);
            },
            None => {
                let k = g.speakers.len();
                g.speakers.push(speaker.clone());
                g.group_of.push(k);
                assert(g.speaker_names() =~~= before.push(speaker@));
            },
        }
        i = i + 1;
        assert(g.assigns(names.take(i as int))) by {
            assert forall|j: int| 0 <= j < i implies {
                &&& (#[trigger] g.group_of@[j]) < g.speakers@.len()
                &&& g.speakers@[g.group_of@[j] as int]@ == names.take(i as int)[j]
            } by {
                if j < i - 1 {
                    assert(names.take(i as int)[j] == names.take(i - 1)[j]);
                }
            }
        }
    }
    assert(names.take(i as int) =~= names);
    g
}

/// The grouping lists every speaker of the transcript exactly once.
pub proof fn lemma_speaker_groups_are_distinct_and_complete(transcript: Seq<TranscriptItem>)
    ensures
        first_appearances(speakers_of(transcript)).no_duplicates(),
        forall|x: Seq<char>|
            first_appearances(speakers_of(transcript)).contains(x) <==> speakers_of(
                transcript,
            ).contains(x),
{
    lemma_first_appearances_distinct(speakers_of(transcript));
}

} // verus!

verus! {

/// The MIME type depends only on the last four characters of the URL: any URL
/// ending in `.m4a` is `audio/mp4`, any ending in `.wav` is `audio/wav`, and any
/// other is `audio/mpeg`, whatever comes before.
pub proof fn lemma_mime_type_by_suffix(prefix: Seq<char>, url: Seq<char>)
    ensures
        mime_type_spec(prefix + ".m4a"@) == "audio/mp4"@,
        mime_type_spec(prefix + ".wav"@) == "audio/wav"@,
        !(url.len() >= 4 && (url.skip(url.len() - 4) == ".m4a"@ || url.skip(url.len() - 4)
            == ".wav"@)) ==> mime_type_spec(url) == "audio/mpeg"@,
{
    reveal_strlit(".m4a");
    reveal_strlit(".wav");
    let m = prefix + ".m4a"@;
    assert(m.subrange(m.len() - 4, m.len() as int) =~= ".m4a"@);
    let w = prefix + ".wav"@;
    assert(w.subrange(w.len() - 4, w.len() as int) =~= ".wav"@);
    assert(w.subrange(w.len() - 4, w.len() as int)[1] != ".m4a"@[1]);
    if url.len() >= 4 {
        assert(url.skip(url.len() - 4) =~= url.subrange(url.len() - 4, url.len() as int));
    }
}

/// Text without `:` is a single piece.
pub proof fn lemma_split_colons_without_colon(s: Seq<char>)
    requires
        forall|i: int| 0 <= i < s.len() ==> s[i] != ':',
    ensures
        split_colons(s) == seq![s],
    decreases s.len(),
{
    if s.len() > 0 {
        lemma_split_colons_without_colon(s.drop_last());
        assert(s.drop_last().push(s.last()) =~= s);
        assert(split_colons(s) =~= seq![s]);
    } else {
        assert(s =~= Seq::<char>::empty());
    }
}

/// Splitting `x:y` gives the pieces of `x` followed by the pieces of `y`.
pub proof fn lemma_split_colons_concat(x: Seq<char>, y: Seq<char>)
    ensures
        split_colons(x + seq![':'] + y) == split_colons(x) + split_colons(y),
    decreases y.len(),
{
    let z = x + seq![':'] + y;
    lemma_split_colons_nonempty(x);
    if y.len() == 0 {
        assert(z.drop_last() =~= x);
        assert(split_colons(z) =~= split_colons(x) + split_colons(y));
    } else {
        lemma_split_colons_concat(x, y.drop_last());
        lemma_split_colons_nonempty(y.drop_last());
        assert(z.drop_last() =~= x + seq![':'] + y.drop_last());
        assert(z.last() == y.last());
        assert(split_colons(z) =~= split_colons(x) + split_colons(y));
    }
}

/// How the pieces of a timestamp are read depends only on how many `:`-separated
/// pieces it has: `a:b:c` is hours, minutes and seconds, `a:b` is minutes and
/// seconds, and a single piece is seconds.
pub proof fn lemma_timestamp_units_by_piece_count(a: Seq<char>, b: Seq<char>, c: Seq<char>)
    requires
        forall|i: int| 0 <= i < a.len() ==> a[i] != ':',
        forall|i: int| 0 <= i < b.len() ==> b[i] != ':',
        forall|i: int| 0 <= i < c.len() ==> c[i] != ':',
    ensures
        timestamp_fields_spec(a) == seq![(a, 1nat)],
        timestamp_fields_spec(a + seq![':'] + b) == seq![(a, 60nat), (b, 1nat)],
        timestamp_fields_spec(a + seq![':'] + b + seq![':'] + c) == seq![
            (a, 3600nat),
            (b, 60nat),
            (c, 1nat),
        ],
{
    lemma_split_colons_without_colon(a);
    lemma_split_colons_without_colon(b);
    lemma_split_colons_without_colon(c);
    lemma_split_colons_concat(a, b);
    let ab = a + seq![':'] + b;
    lemma_split_colons_concat(ab, c);
    assert(split_colons(ab) =~= seq![a, b]);
    assert(split_colons(ab + seq![':'] + c) =~= seq![a, b, c]);
    assert(timestamp_fields_spec(ab) =~= seq![(a, 60nat), (b, 1nat)]);
    assert(timestamp_fields_spec(ab + seq![':'] + c) =~= seq![(a, 3600nat), (b, 60nat), (c, 1nat)]);
}

} // verus!
