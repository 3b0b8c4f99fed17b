use vstd::prelude::*;

verus! {

/// Which artifacts a completed recording retains.
#[derive(Debug, Clone, Copy, PartialEq, Eq, Structural)]
pub enum SaveModePolicy {
    /// Keep the audio file; write no text record.
    AudioOnly,
    /// Keep the text record; no audio file survives, even one written
    /// transiently for transcription.
    TextOnly,
    /// Keep both artifacts.
    Both,
}

impl Default for SaveModePolicy {
    /// The default save mode keeps both artifacts.
    fn default() -> (r: Self)
        ensures
            r == SaveModePolicy::Both,
    {
        SaveModePolicy::Both
    }
}

/// How many historical recordings are preserved before the oldest are
/// pruned.
#[derive(Debug, Clone, Copy, PartialEq, Eq, Structural)]
pub enum RetentionPolicy {
    /// Preserve every recording.
    KeepAll,
    /// Preserve at most this many recordings; pruning removes the oldest
    /// surplus first.
    KeepLast(u64),
}

impl Default for RetentionPolicy {
    /// The default retention preserves everything until a cap is configured.
    fn default() -> (r: Self)
        ensures
            r == RetentionPolicy::KeepAll,
    {
        RetentionPolicy::KeepAll
    }
}

/// The stable name of a save mode in the structured settings format.
pub open spec fn spec_save_mode_name(m: SaveModePolicy) -> Seq<char> {
    match m {
        SaveModePolicy::AudioOnly => "audio_only"@,
        SaveModePolicy::TextOnly => "text_only"@,
        SaveModePolicy::Both => "both"@,
    }
}

/// The save mode a stable name denotes, if any.
pub open spec fn spec_parse_save_mode(s: Seq<char>) -> Option<SaveModePolicy> {
    if s == "audio_only"@ {
        Some(SaveModePolicy::AudioOnly)
    } else if s == "text_only"@ {
        Some(SaveModePolicy::TextOnly)
    } else if s == "both"@ {
        Some(SaveModePolicy::Both)
    } else {
        None
    }
}

/// Serializes a save mode to its stable name.
pub fn save_mode_name(m: SaveModePolicy) -> (r: String)
    ensures
        r@ == spec_save_mode_name(m),
{
    match m {
        SaveModePolicy::AudioOnly => "audio_only".to_owned(),
        SaveModePolicy::TextOnly => "text_only".to_owned(),
        SaveModePolicy::Both => "both".to_owned(),
    }
}

/// Deserializes a save mode from its stable name.
pub fn parse_save_mode(name: &str) -> (r: Option<SaveModePolicy>)
    ensures
        r == spec_parse_save_mode(name@),
{
    let n = name.to_owned();
    if n == "audio_only".to_owned() {
        Some(SaveModePolicy::AudioOnly)
    } else if n == "text_only".to_owned() {
        Some(SaveModePolicy::TextOnly)
    } else if n == "both".to_owned() {
        Some(SaveModePolicy::Both)
    } else {
        None
    }
}

/// Every save mode survives a serialize/deserialize round trip unchanged.
pub proof fn lemma_save_mode_roundtrip(m: SaveModePolicy)
    ensures
        spec_parse_save_mode(spec_save_mode_name(m)) == Some(m),
{
    reveal_strlit("audio_only");
    reveal_strlit("text_only");
    reveal_strlit("both");
    assert("audio_only"@.len() == 10);
    assert("text_only"@.len() == 9);
    assert("both"@.len() == 4);
}

/// A name that deserializes at all deserializes to the mode that
/// serializes back to the same name.
pub proof fn lemma_save_mode_parse_inverse(s: Seq<char>)
    requires
        spec_parse_save_mode(s) is Some,
    ensures
        spec_save_mode_name(spec_parse_save_mode(s)->0) == s,
{
}

/// The stable kind name of a retention policy in the settings format.
pub open spec fn spec_retention_kind_name(p: RetentionPolicy) -> Seq<char> {
    match p {
        RetentionPolicy::KeepAll => "keep_all"@,
        RetentionPolicy::KeepLast(_) => "keep_last"@,
    }
}

/// The numeric cap a retention policy carries (zero when it has none).
pub open spec fn spec_retention_limit(p: RetentionPolicy) -> u64 {
    match p {
        RetentionPolicy::KeepAll => 0,
        RetentionPolicy::KeepLast(n) => n,
    }
}

/// The retention policy a (kind name, limit) pair denotes, if any.
pub open spec fn spec_parse_retention(kind: Seq<char>, limit: u64) -> Option<RetentionPolicy> {
    if kind == "keep_all"@ {
        Some(RetentionPolicy::KeepAll)
    } else if kind == "keep_last"@ {
        Some(RetentionPolicy::KeepLast(limit))
    } else {
        None
    }
}

/// Serializes a retention policy to its kind name and numeric cap.
pub fn retention_to_parts(p: RetentionPolicy) -> (r: (String, u64))
    ensures
        r.0@ == spec_retention_kind_name(p),
        r.1 == spec_retention_limit(p),
{
    match p {
        RetentionPolicy::KeepAll => ("keep_all".to_owned(), 0),
        RetentionPolicy::KeepLast(n) => ("keep_last".to_owned(), n),
    }
}

/// Deserializes a retention policy from its kind name and numeric cap.
pub fn retention_from_parts(kind: &str, limit: u64) -> (r: Option<RetentionPolicy>)
    ensures
        r == spec_parse_retention(kind@, limit),
{
    let k = kind.to_owned();
    if k == "keep_all".to_owned() {
        Some(RetentionPolicy::KeepAll)
    } else if k == "keep_last".to_owned() {
        Some(RetentionPolicy::KeepLast(limit))
    } else {
        None
    }
}

/// Every retention policy survives a serialize/deserialize round trip
/// unchanged.
pub proof fn lemma_retention_roundtrip(p: RetentionPolicy)
    ensures
        spec_parse_retention(spec_retention_kind_name(p), spec_retention_limit(p)) == Some(p),
{
    reveal_strlit("keep_all");
    reveal_strlit("keep_last");
    assert("keep_all"@.len() == 8);
    assert("keep_last"@.len() == 9);
}

/// The artifacts one finished recording leaves behind. The presence of each
/// field is determined solely by the save mode at creation time and never
/// edited retroactively.
#[derive(Debug)]
pub struct RecordingArtifact {
    pub audio_path: Option<String>,
    pub text: Option<String>,
}

/// Exactly the artifacts the save mode calls for are present: audio-only
/// keeps audio and no text, text-only keeps text and no audio, both keeps
/// both.
pub open spec fn artifact_matches_mode(a: RecordingArtifact, m: SaveModePolicy) -> bool {
    match m {
        SaveModePolicy::AudioOnly => a.audio_path is Some && a.text is None,
        SaveModePolicy::TextOnly => a.audio_path is None && a.text is Some,
        SaveModePolicy::Both => a.audio_path is Some && a.text is Some,
    }
}

/// The artifact set routed for one recording under a save mode.
pub open spec fn spec_route(
    mode: SaveModePolicy,
    audio_path: String,
    text: String,
) -> RecordingArtifact {
    match mode {
        SaveModePolicy::AudioOnly => RecordingArtifact { audio_path: Some(audio_path), text: None },
        SaveModePolicy::TextOnly => RecordingArtifact { audio_path: None, text: Some(text) },
        SaveModePolicy::Both => RecordingArtifact {
            audio_path: Some(audio_path),
            text: Some(text),
        },
    }
}

/// Routes one finished recording: decides, from the save mode alone, which
/// artifacts survive.
pub fn route_artifacts(mode: SaveModePolicy, audio_path: String, text: String) -> (r:
    RecordingArtifact)
    ensures
        r == spec_route(mode, audio_path, text),
        artifact_matches_mode(r, mode),
        mode is AudioOnly ==> r.audio_path == Some(audio_path) && r.text is None,
        mode is TextOnly ==> r.audio_path is None && r.text == Some(text),
        mode is Both ==> r.audio_path == Some(audio_path) && r.text == Some(text),
{
    match mode {
        SaveModePolicy::AudioOnly => RecordingArtifact { audio_path: Some(audio_path), text: None },
        SaveModePolicy::TextOnly => RecordingArtifact { audio_path: None, text: Some(text) },
        SaveModePolicy::Both => RecordingArtifact {
            audio_path: Some(audio_path),
            text: Some(text),
        },
    }
}

/// What the host must do on disk and in the history index for one finished
/// recording.
#[derive(Debug, Clone, Copy, PartialEq, Eq, Structural)]
pub struct PersistencePlan {
    /// Write the audio file.
    pub write_audio: bool,
    /// Write the text record to the history index.
    pub write_text: bool,
    /// Delete an audio file that was already written transiently during
    /// transcription; the finished state never leaves an orphan.
    pub delete_transient_audio: bool,
}

/// The plan a save mode dictates, given whether a transient audio file was
/// already written during transcription.
pub open spec fn spec_plan_for(
    mode: SaveModePolicy,
    transient_audio_written: bool,
) -> PersistencePlan {
    match mode {
        SaveModePolicy::AudioOnly => PersistencePlan {
            write_audio: true,
            write_text: false,
            delete_transient_audio: false,
        },
        SaveModePolicy::TextOnly => PersistencePlan {
            write_audio: false,
            write_text: true,
            delete_transient_audio: transient_audio_written,
        },
        SaveModePolicy::Both => PersistencePlan {
            write_audio: true,
            write_text: true,
            delete_transient_audio: false,
        },
    }
}

/// Decides what the host writes and deletes for one finished recording:
/// audio-only writes only the file, text-only writes only the record and
/// deletes a transiently written audio file, both writes both.
pub fn plan_for(mode: SaveModePolicy, transient_audio_written: bool) -> (r: PersistencePlan)
    ensures
        r == spec_plan_for(mode, transient_audio_written),
        r.write_audio <==> mode is AudioOnly || mode is Both,
        r.write_text <==> mode is TextOnly || mode is Both,
        r.delete_transient_audio <==> mode is TextOnly && transient_audio_written,
{
    match mode {
        SaveModePolicy::AudioOnly => PersistencePlan {
            write_audio: true,
            write_text: false,
            delete_transient_audio: false,
        },
        SaveModePolicy::TextOnly => PersistencePlan {
            write_audio: false,
            write_text: true,
            delete_transient_audio: transient_audio_written,
        },
        SaveModePolicy::Both => PersistencePlan {
            write_audio: true,
            write_text: true,
            delete_transient_audio: false,
        },
    }
}

/// One retained recording: its creation stamp, the save mode it was
/// finished under, and the artifacts that mode created.
#[derive(Debug)]
pub struct RecordingEntry {
    /// Creation stamp; later recordings carry strictly larger stamps.
    pub id: u64,
    pub mode: SaveModePolicy,
    pub artifact: RecordingArtifact,
}

/// How many of `len` retained recordings exceed the retention cap.
pub open spec fn surplus_over_cap(retention: RetentionPolicy, len: nat) -> nat {
    match retention {
        RetentionPolicy::KeepAll => 0,
        RetentionPolicy::KeepLast(n) => if len > n {
            (len - n) as nat
        } else {
            0
        },
    }
}

/// Tracks the retained recordings, oldest first, and enforces the retention
/// policy after each newly persisted recording.
#[derive(Debug)]
pub struct RecordingPersistenceManager {
    retention: RetentionPolicy,
    records: Vec<RecordingEntry>,
}

impl RecordingPersistenceManager {
    /// The retention policy this manager enforces.
    pub closed spec fn spec_retention(&self) -> RetentionPolicy {
        self.retention
    }

    /// The retained recordings, oldest first.
    pub closed spec fn spec_records(&self) -> Seq<RecordingEntry> {
        self.records@
    }

    /// Every retained artifact set matches its recording's save mode, and
    /// creation stamps grow strictly with age (oldest first).
    pub open spec fn well_formed(&self) -> bool {
        &&& forall|i: int|
            0 <= i < self.spec_records().len() ==> artifact_matches_mode(
                (#[trigger] self.spec_records()[i]).artifact,
                self.spec_records()[i].mode,
            )
        &&& forall|i: int, j: int|
            0 <= i < j < self.spec_records().len() ==> (#[trigger] self.spec_records()[i]).id < (
            #[trigger] self.spec_records()[j]).id
    }

    /// A manager starts with no retained recordings.
    pub fn new(retention: RetentionPolicy) -> (r: Self)
        ensures
            r.spec_retention() == retention,
            r.spec_records() =~= Seq::<RecordingEntry>::empty(),
            r.well_formed(),
    {
        RecordingPersistenceManager { retention, records: Vec::new() }
    }

    /// The retention policy in force.
    pub fn retention(&self) -> (r: RetentionPolicy)
        ensures
            r == self.spec_retention(),
    {
        self.retention
    }

    /// How many recordings are currently retained.
    pub fn record_count(&self) -> (r: usize)
        ensures
            r == self.spec_records().len(),
    {
        self.records.len()
    }

    /// Persists one routed recording and reconciles against the retention
    /// policy: the new entry is appended as the newest, and exactly the
    /// oldest surplus entries beyond the cap are removed and returned,
    /// oldest first, for the host to clean up.
    pub fn insert_recording(
        &mut self,
        id: u64,
        mode: SaveModePolicy,
        artifact: RecordingArtifact,
    ) -> (removed: Vec<RecordingEntry>)
        requires
            old(self).well_formed(),
            artifact_matches_mode(artifact, mode),
            old(self).spec_records().len() > 0 ==> id > old(self).spec_records().last().id,
        ensures
            final(self).well_formed(),
            final(self).spec_retention() == old(self).spec_retention(),
            ({
                let appended = old(self).spec_records().push(
                    (RecordingEntry { id, mode, artifact }),
                );
                let k = surplus_over_cap(old(self).spec_retention(), appended.len());
                &&& removed@ =~= appended.take(k as int)
                &&& final(self).spec_records() =~= appended.skip(k as int)
                &&& removed@.len() == k
            }),
            old(self).spec_retention() matches RetentionPolicy::KeepLast(n)
                ==> final(self).spec_records().len() <= n,
    {
        let ghost pre = self.records@;
        let entry = RecordingEntry { id, mode, artifact };
        self.records.push(entry);
        let ghost appended = self.records@;
        proof {
            assert forall|i: int, j: int| 0 <= i < j < appended.len() implies (
            #[trigger] appended[i]).id < (#[trigger] appended[j]).id by {
                if j < appended.len() - 1 {
                    assert(pre[i].id < pre[j].id);
                } else if i < appended.len() - 1 {
                    if i < pre.len() - 1 {
                        assert(pre[i].id < pre[pre.len() - 1].id);
                    }
                    assert(appended[j].id == id);
                }
            }
            assert(forall|i: int|
                0 <= i < appended.len() ==> artifact_matches_mode(
                    (#[trigger] appended[i]).artifact,
                    appended[i].mode,
                ));
        }
        let surplus: usize = match self.retention {
            RetentionPolicy::KeepAll => 0,
            RetentionPolicy::KeepLast(n) => {
                let len64 = self.records.len() as u64;
                if len64 > n {
                    (len64 - n) as usize
                } else {
                    0
                }
            },
        };
        assert(surplus == surplus_over_cap(self.retention, appended.len()));
        assert(surplus <= appended.len());
        let ghost ret0 = self.retention;
        let mut removed: Vec<RecordingEntry> = Vec::new();
        let mut k: usize = 0;
        while k < surplus
            invariant
                k <= surplus,
                surplus <= appended.len(),
                self.retention == ret0,
                removed@ =~= appended.take(k as int),
                self.records@ =~= appended.skip(k as int),
            decreases surplus - k,
        {
            let oldest = self.records.remove(0);
            removed.push(oldest);
            proof {
                assert(appended.skip(k as int)[0] == appended[k as int]);
                assert(appended.take(k + 1) =~= appended.take(k as int).push(appended[k as int]));
                assert(appended.skip(k as int).remove(0) =~= appended.skip(k + 1));
            }
            k = k + 1;
        }
        proof {
            let fin = appended.skip(surplus as int);
            assert forall|i: int| 0 <= i < fin.len() implies artifact_matches_mode(
                (#[trigger] fin[i]).artifact,
                fin[i].mode,
            ) by {
                assert(fin[i] == appended[i + surplus]);
            }
            assert forall|i: int, j: int| 0 <= i < j < fin.len() implies (#[trigger] fin[i]).id < (
            #[trigger] fin[j]).id by {
                assert(fin[i] == appended[i + surplus]);
                assert(fin[j] == appended[j + surplus]);
            }
        }
        removed
    }
    /// Drives one finished recording through its lifecycle in this manager:
    /// the artifact set is routed from the save mode, the plan of writes and
    /// deletions for the host is decided, the recording is retained as the
    /// newest entry, and the history is reconciled against the retention
    /// policy. Returns the plan and the pruned entries, oldest first; the
    /// recording's artifacts are final afterwards.
    pub fn persist_recording(
        &mut self,
        id: u64,
        mode: SaveModePolicy,
        transient_audio_written: bool,
        audio_path: String,
        text: String,
    ) -> (r: (PersistencePlan, Vec<RecordingEntry>))
        requires
            old(self).well_formed(),
            old(self).spec_records().len() > 0 ==> id > old(self).spec_records().last().id,
        ensures
            final(self).well_formed(),
            final(self).spec_retention() == old(self).spec_retention(),
            r.0 == spec_plan_for(mode, transient_audio_written),
            ({
                let appended = old(self).spec_records().push(
                    (RecordingEntry { id, mode, artifact: spec_route(mode, audio_path, text) }),
                );
                let k = surplus_over_cap(old(self).spec_retention(), appended.len());
                &&& r.1@ =~= appended.take(k as int)
                &&& r.1@.len() == k
                &&& final(self).spec_records() =~= appended.skip(k as int)
            }),
            old(self).spec_retention() matches RetentionPolicy::KeepLast(n)
                ==> final(self).spec_records().len() <= n,
    {
        let plan = plan_for(mode, transient_audio_written);
        let artifact = route_artifacts(mode, audio_path, text);
        let removed = self.insert_recording(id, mode, artifact);
        (plan, removed)
    }
}

/// The audio-path views of a pruned batch: exactly the paths of entries
/// that carry an audio file, in order. An audio file that was never created
/// is never scheduled for deletion.
pub open spec fn audio_path_views(entries: Seq<RecordingEntry>) -> Seq<Seq<char>>
    decreases entries.len(),
{
    if entries.len() == 0 {
        Seq::empty()
    } else {
        audio_path_views(entries.drop_last()) + (match entries.last().artifact.audio_path {
            Some(p) => seq![p@],
            None => Seq::empty(),
        })
    }
}

/// Collects the audio files to delete for a pruned batch: one path per
/// entry that has an audio artifact, and nothing for entries whose mode
/// never created one.
pub fn cleanup_audio_paths(entries: &Vec<RecordingEntry>) -> (r: Vec<String>)
    ensures
        r@.map_values(|s: String| s@) =~= audio_path_views(entries@),
{
    let mut r: Vec<String> = Vec::new();
    let mut i: usize = 0;
    while i < entries.len()
        invariant
            i <= entries@.len(),
            r@.map_values(|s: String| s@) =~= audio_path_views(entries@.take(i as int)),
        decreases entries@.len() - i,
    {
        let ghost prev = r@;
        match &entries[i].artifact.audio_path {
            Some(p) => {
                r.push(p.clone());
                proof {
                    assert(r@.map_values(|s: String| s@) =~= prev.map_values(|s: String| s@).push(
                        entries@[i as int].artifact.audio_path->0@,
                    ));
                }
            },
            None => {},
        }
        proof {
            assert(entries@.take(i + 1).drop_last() =~= entries@.take(i as int));
            assert(entries@.take(i + 1).last() == entries@[i as int]);
        }
        i = i + 1;
    }
    proof {
        assert(entries@.take(entries@.len() as int) =~= entries@);
    }
    r
}

/// Under a retention policy capping the history at `cap`, persisting into a
/// history already holding `cap + 1` entries prunes exactly one entry — the
/// oldest — and keeps the `cap` newest.
pub proof fn lemma_retention_cap_removes_oldest(entries: Seq<RecordingEntry>, cap: u64)
    requires
        entries.len() == cap + 1,
    ensures
        surplus_over_cap(RetentionPolicy::KeepLast(cap), entries.len()) == 1,
        entries.take(1) =~= seq![entries[0]],
        entries.skip(1).len() == cap,
{
}

} // verus!
