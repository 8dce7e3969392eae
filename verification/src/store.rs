//! In-memory model of the analytical store.
//!
//! The store is relational: a `recordings` table keyed by a surrogate id, and
//! child tables — `statics`, `physics`, `graphics`, `recording_notes`,
//! `annotations` — carrying the parent id.  The exporter appends one
//! recording with all its child rows in one step; a recording is never
//! mutated afterwards.  The unverified shell mirrors this model to and from
//! the on-disk relational database; every row it writes comes from here.
//!
//! Times are integer microseconds; the shell converts them to the store's
//! seconds-valued columns.

use vstd::prelude::*;

use crate::annotations::Annotation;
use crate::notes::{find_from, occurs_at};
use crate::frames::{GraphicsRecord, GraphicsRecordV, PhysicsRecord, StaticsRecord, StaticsRecordV};

verus! {

/// One row of the `recordings` table.
#[derive(Clone, Debug)]
pub struct RecordingRow {
    pub id: i64,
    pub source_file: String,
    pub created_at: String,
    pub duration_us: i64,
    pub sample_count: i64,
}

/// One row of the `physics` table.
///
/// `annotation_id` is set only on rows produced by the slicer.
#[derive(Clone, Copy, Debug)]
pub struct PhysicsRow {
    pub recording_id: i64,
    pub time_offset_us: i64,
    pub frame: PhysicsRecord,
    pub annotation_id: Option<i64>,
}

/// One row of the `graphics` table.
#[derive(Clone, Debug)]
pub struct GraphicsRow {
    pub recording_id: i64,
    pub time_offset_us: i64,
    pub frame: GraphicsRecord,
}

/// Mathematical value of a [`GraphicsRow`].
pub struct GraphicsRowV {
    pub recording_id: i64,
    pub time_offset_us: i64,
    pub frame: GraphicsRecordV,
}

impl View for GraphicsRow {
    type V = GraphicsRowV;

    open spec fn view(&self) -> GraphicsRowV {
        GraphicsRowV {
            recording_id: self.recording_id,
            time_offset_us: self.time_offset_us,
            frame: self.frame@,
        }
    }
}

/// One row of the `statics` table; the frame may be absent.
#[derive(Clone, Debug)]
pub struct StaticsRow {
    pub recording_id: i64,
    pub frame: Option<StaticsRecord>,
}

/// Mathematical value of a [`StaticsRow`].
pub struct StaticsRowV {
    pub recording_id: i64,
    pub frame: Option<StaticsRecordV>,
}

impl View for StaticsRow {
    type V = StaticsRowV;

    open spec fn view(&self) -> StaticsRowV {
        StaticsRowV {
            recording_id: self.recording_id,
            frame: match self.frame {
                Some(f) => Some(f@),
                None => None,
            },
        }
    }
}

/// Optional content for the `recording_notes` columns.
#[derive(Clone, Debug, Default)]
pub struct RecordingNotesContent {
    pub notes: Option<String>,
    pub laptime: Option<String>,
    pub result: Option<String>,
    pub driver_impression: Option<String>,
    pub tested_parameters: Option<String>,
    pub conditions: Option<String>,
    pub setup_notes: Option<String>,
    pub session_goal: Option<String>,
    pub incident: Option<String>,
}

/// One row of the `recording_notes` table.
#[derive(Clone, Debug)]
pub struct NotesRow {
    pub recording_id: i64,
    pub content: RecordingNotesContent,
}

/// One row of the `annotations` table.
#[derive(Clone, Debug)]
pub struct AnnotationRow {
    pub id: i64,
    pub recording_id: i64,
    pub time_offset_us: i64,
    pub time_end_us: Option<i64>,
    pub text: String,
    pub tag: String,
}

impl RecordingRow {
    /// A faithful copy of the row.
    pub fn duplicate(&self) -> (r: RecordingRow)
        ensures
            r == *self,
    {
        RecordingRow {
            id: self.id,
            source_file: self.source_file.clone(),
            created_at: self.created_at.clone(),
            duration_us: self.duration_us,
            sample_count: self.sample_count,
        }
    }
}

impl StaticsRow {
    /// A copy of the row with the same abstract value.
    pub fn duplicate(&self) -> (r: StaticsRow)
        ensures
            r@ == self@,
            r.recording_id == self.recording_id,
    {
        StaticsRow {
            recording_id: self.recording_id,
            frame: match &self.frame {
                Some(f) => Some(f.duplicate()),
                None => None,
            },
        }
    }
}

impl GraphicsRow {
    /// A copy of the row with the same abstract value.
    pub fn duplicate(&self) -> (r: GraphicsRow)
        ensures
            r@ == self@,
    {
        GraphicsRow {
            recording_id: self.recording_id,
            time_offset_us: self.time_offset_us,
            frame: self.frame.duplicate(),
        }
    }
}

/// View of an optional string as an optional character sequence.
pub open spec fn opt_view(o: Option<String>) -> Option<Seq<char>> {
    match o {
        Some(s) => Some(s@),
        None => None,
    }
}

/// The two note contents carry the same text in every column.
pub open spec fn notes_content_eq(a: RecordingNotesContent, b: RecordingNotesContent) -> bool {
    &&& opt_view(a.notes) == opt_view(b.notes)
    &&& opt_view(a.laptime) == opt_view(b.laptime)
    &&& opt_view(a.result) == opt_view(b.result)
    &&& opt_view(a.driver_impression) == opt_view(b.driver_impression)
    &&& opt_view(a.tested_parameters) == opt_view(b.tested_parameters)
    &&& opt_view(a.conditions) == opt_view(b.conditions)
    &&& opt_view(a.setup_notes) == opt_view(b.setup_notes)
    &&& opt_view(a.session_goal) == opt_view(b.session_goal)
    &&& opt_view(a.incident) == opt_view(b.incident)
}

impl RecordingNotesContent {
    /// An all-empty content, for a recording without notes.
    pub fn empty() -> (r: RecordingNotesContent)
        ensures
            opt_view(r.notes) is None,
            opt_view(r.laptime) is None,
            opt_view(r.result) is None,
            opt_view(r.driver_impression) is None,
            opt_view(r.tested_parameters) is None,
            opt_view(r.conditions) is None,
            opt_view(r.setup_notes) is None,
            opt_view(r.session_goal) is None,
            opt_view(r.incident) is None,
    {
        RecordingNotesContent {
            notes: None,
            laptime: None,
            result: None,
            driver_impression: None,
            tested_parameters: None,
            conditions: None,
            setup_notes: None,
            session_goal: None,
            incident: None,
        }
    }

    /// A faithful copy of the content.
    pub fn duplicate(&self) -> (r: RecordingNotesContent)
        ensures
            notes_content_eq(r, *self),
    {
        RecordingNotesContent {
            notes: clone_opt(&self.notes),
            laptime: clone_opt(&self.laptime),
            result: clone_opt(&self.result),
            driver_impression: clone_opt(&self.driver_impression),
            tested_parameters: clone_opt(&self.tested_parameters),
            conditions: clone_opt(&self.conditions),
            setup_notes: clone_opt(&self.setup_notes),
            session_goal: clone_opt(&self.session_goal),
            incident: clone_opt(&self.incident),
        }
    }
}

/// Copy an optional string, preserving its text.
fn clone_opt(o: &Option<String>) -> (r: Option<String>)
    ensures
        opt_view(r) == opt_view(*o),
{
    match o {
        Some(s) => Some(s.clone()),
        None => None,
    }
}

/// The whole analytical store.
pub struct AnalyticalStore {
    pub next_recording_id: i64,
    pub next_annotation_id: i64,
    pub recordings: Vec<RecordingRow>,
    pub statics: Vec<StaticsRow>,
    pub physics: Vec<PhysicsRow>,
    pub graphics: Vec<GraphicsRow>,
    pub notes: Vec<NotesRow>,
    pub annotations: Vec<AnnotationRow>,
}

/// Some recording row carries this source file name.
pub open spec fn spec_recording_exists(s: AnalyticalStore, source_file: Seq<char>) -> bool {
    exists|i: int|
        0 <= i < s.recordings@.len() && (#[trigger] s.recordings@[i]).source_file@ == source_file
}

impl AnalyticalStore {
    /// Recording ids are unique and below the id counter.
    pub open spec fn ids_wf(self) -> bool {
        &&& 0 <= self.next_recording_id
        &&& forall|i: int|
            0 <= i < self.recordings@.len() ==> 0 <= (#[trigger] self.recordings@[i]).id
                < self.next_recording_id
        &&& forall|i: int, j: int|
            0 <= i < j < self.recordings@.len() ==> (#[trigger] self.recordings@[i]).id != (
            #[trigger] self.recordings@[j]).id
    }

    /// An empty store, as `ensure_schema` leaves a fresh database.
    pub fn new() -> (r: AnalyticalStore)
        ensures
            r.ids_wf(),
            r.recordings@.len() == 0,
            r.statics@.len() == 0,
            r.physics@.len() == 0,
            r.graphics@.len() == 0,
            r.notes@.len() == 0,
            r.annotations@.len() == 0,
            r.next_recording_id == 1,
            r.next_annotation_id == 1,
    {
        AnalyticalStore {
            next_recording_id: 1,
            next_annotation_id: 1,
            recordings: Vec::new(),
            statics: Vec::new(),
            physics: Vec::new(),
            graphics: Vec::new(),
            notes: Vec::new(),
            annotations: Vec::new(),
        }
    }

    /// A recording with this source file is already present.
    pub fn recording_exists(&self, source_file: &String) -> (r: bool)
        ensures
            r == spec_recording_exists(*self, source_file@),
    {
        let mut i: usize = 0;
        while i < self.recordings.len()
            invariant
                i <= self.recordings@.len(),
                forall|j: int|
                    0 <= j < i ==> (#[trigger] self.recordings@[j]).source_file@ != source_file@,
            decreases self.recordings@.len() - i,
        {
            if self.recordings[i].source_file.eq(source_file) {
                return true;
            }
            i = i + 1;
        }
        false
    }

    /// Append one recording with all its child rows: the recording row, its
    /// statics row, its notes row, the annotation rows in the given order,
    /// and one physics row per record with `time_offset = index / rate`.
    ///
    /// Returns the new recording's surrogate id.
    pub fn export_to_store(
        &mut self,
        source_file: &String,
        created_at: &String,
        records: &Vec<PhysicsRecord>,
        sample_rate_hz: u32,
        statics: Option<&StaticsRecord>,
        notes_content: Option<&RecordingNotesContent>,
        annotations: &Vec<Annotation>,
    ) -> (r: i64)
        requires
            old(self).ids_wf(),
            sample_rate_hz >= 1,
            records@.len() * 1_000_000 <= i64::MAX,
            old(self).next_recording_id < i64::MAX,
            old(self).next_annotation_id + annotations@.len() <= i64::MAX,
        ensures
            final(self).ids_wf(),
            r == old(self).next_recording_id,
            final(self).next_recording_id == old(self).next_recording_id + 1,
            final(self).next_annotation_id == old(self).next_annotation_id + annotations@.len(),
            // recordings: one appended row
            final(self).recordings@.len() == old(self).recordings@.len() + 1,
            final(self).recordings@.take(old(self).recordings@.len() as int) == old(
                self,
            ).recordings@,
            final(self).recordings@.last().id == r,
            final(self).recordings@.last().source_file@ == source_file@,
            final(self).recordings@.last().created_at@ == created_at@,
            final(self).recordings@.last().sample_count == records@.len(),
            final(self).recordings@.last().duration_us as int == (records@.len() as int)
                * 1_000_000 / (sample_rate_hz as int),
            spec_recording_exists(*final(self), source_file@),
            // statics: one appended row for this recording
            final(self).statics@.len() == old(self).statics@.len() + 1,
            final(self).statics@.take(old(self).statics@.len() as int) == old(self).statics@,
            final(self).statics@.last().recording_id == r,
            (match (final(self).statics@.last().frame, statics) {
                (Some(f), Some(s)) => f@ == s@,
                (None, None) => true,
                _ => false,
            }),
            // notes: one appended row for this recording
            final(self).notes@.len() == old(self).notes@.len() + 1,
            final(self).notes@.take(old(self).notes@.len() as int) == old(self).notes@,
            final(self).notes@.last().recording_id == r,
            (match notes_content {
                Some(c) => notes_content_eq(final(self).notes@.last().content, *c),
                None => notes_content_eq(final(self).notes@.last().content, RecordingNotesContent {
                    notes: None,
                    laptime: None,
                    result: None,
                    driver_impression: None,
                    tested_parameters: None,
                    conditions: None,
                    setup_notes: None,
                    session_goal: None,
                    incident: None,
                }),
            }),
            // annotations: appended in order, ids assigned sequentially
            final(self).annotations@.len() == old(self).annotations@.len() + annotations@.len(),
            final(self).annotations@.take(old(self).annotations@.len() as int) == old(
                self,
            ).annotations@,
            forall|k: int|
                0 <= k < annotations@.len() ==> {
                    let row = #[trigger] final(self).annotations@[old(
                        self,
                    ).annotations@.len() + k];
                    &&& row.id == old(self).next_annotation_id + k
                    &&& row.recording_id == r
                    &&& row.time_offset_us == annotations@[k].time_offset_us
                    &&& row.time_end_us == annotations@[k].time_end_us
                    &&& row.text@ == annotations@[k].text@
                    &&& row.tag@ == annotations@[k].tag@
                },
            // physics: one row per record, in order, timed by index
            final(self).physics@.len() == old(self).physics@.len() + records@.len(),
            final(self).physics@.take(old(self).physics@.len() as int) == old(self).physics@,
            forall|k: int|
                0 <= k < records@.len() ==> #[trigger] final(self).physics@[old(
                    self,
                ).physics@.len() + k] == (PhysicsRow {
                    recording_id: r,
                    time_offset_us: (k * 1_000_000 / (sample_rate_hz as int)) as i64,
                    frame: records@[k],
                    annotation_id: None,
                }),
            final(self).graphics@ == old(self).graphics@,
    {
        let rid = self.next_recording_id;
        self.next_recording_id = self.next_recording_id + 1;
        let n = records.len();
        proof {
            assert(n * 1_000_000 / (sample_rate_hz as int) <= n * 1_000_000) by (nonlinear_arith)
                requires sample_rate_hz >= 1, 0 <= n;
            assert(n * 1_000_000 / (sample_rate_hz as int) >= 0) by (nonlinear_arith)
                requires sample_rate_hz >= 1, 0 <= n;
        }
        let duration_us = ((n as u64) * 1_000_000 / (sample_rate_hz as u64)) as i64;
        self.recordings.push(
            RecordingRow {
                id: rid,
                source_file: source_file.clone(),
                created_at: created_at.clone(),
                duration_us,
                sample_count: n as i64,
            },
        );
        self.statics.push(
            StaticsRow {
                recording_id: rid,
                frame: match statics {
                    Some(s) => Some(s.duplicate()),
                    None => None,
                },
            },
        );
        self.notes.push(
            NotesRow {
                recording_id: rid,
                content: match notes_content {
                    Some(c) => c.duplicate(),
                    None => RecordingNotesContent::empty(),
                },
            },
        );
        let mut k: usize = 0;
        while k < annotations.len()
            invariant
                k <= annotations@.len(),
                old(self).next_annotation_id + annotations@.len() <= i64::MAX,
                self.next_annotation_id == old(self).next_annotation_id + k,
                self.annotations@.len() == old(self).annotations@.len() + k,
                self.annotations@.take(old(self).annotations@.len() as int) == old(
                    self,
                ).annotations@,
                forall|j: int|
                    0 <= j < k ==> {
                        let row = #[trigger] self.annotations@[old(self).annotations@.len() + j];
                        &&& row.id == old(self).next_annotation_id + j
                        &&& row.recording_id == rid
                        &&& row.time_offset_us == annotations@[j].time_offset_us
                        &&& row.time_end_us == annotations@[j].time_end_us
                        &&& row.text@ == annotations@[j].text@
                        &&& row.tag@ == annotations@[j].tag@
                    },
                rid == old(self).next_recording_id,
                self.next_recording_id == old(self).next_recording_id + 1,
                self.recordings@.len() == old(self).recordings@.len() + 1,
                self.recordings@.take(old(self).recordings@.len() as int) == old(
                    self,
                ).recordings@,
                self.recordings@.last().id == rid,
                self.recordings@.last().source_file@ == source_file@,
                self.recordings@.last().created_at@ == created_at@,
                self.recordings@.last().sample_count == n as i64,
                self.recordings@.last().duration_us as int == (records@.len() as int) * 1_000_000
                    / (sample_rate_hz as int),
                self.statics@.len() == old(self).statics@.len() + 1,
                self.statics@.take(old(self).statics@.len() as int) == old(self).statics@,
                self.statics@.last().recording_id == rid,
                (match (self.statics@.last().frame, statics) {
                    (Some(f), Some(s)) => f@ == s@,
                    (None, None) => true,
                    _ => false,
                }),
                self.notes@.len() == old(self).notes@.len() + 1,
                self.notes@.take(old(self).notes@.len() as int) == old(self).notes@,
                self.notes@.last().recording_id == rid,
                (match notes_content {
                    Some(c) => notes_content_eq(self.notes@.last().content, *c),
                    None => notes_content_eq(self.notes@.last().content, RecordingNotesContent {
                        notes: None,
                        laptime: None,
                        result: None,
                        driver_impression: None,
                        tested_parameters: None,
                        conditions: None,
                        setup_notes: None,
                        session_goal: None,
                        incident: None,
                    }),
                }),
                self.physics@ == old(self).physics@,
                self.graphics@ == old(self).graphics@,
            decreases annotations@.len() - k,
        {
            let a = &annotations[k];
            let aid = self.next_annotation_id;
            self.next_annotation_id = self.next_annotation_id + 1;
            self.annotations.push(
                AnnotationRow {
                    id: aid,
                    recording_id: rid,
                    time_offset_us: a.time_offset_us,
                    time_end_us: a.time_end_us,
                    text: a.text.clone(),
                    tag: a.tag.clone(),
                },
            );
            proof {
                assert(self.annotations@.take(old(self).annotations@.len() as int) =~= old(
                    self,
                ).annotations@);
            }
            k = k + 1;
        }
        let mut i: usize = 0;
        while i < n
            invariant
                i <= n,
                n == records@.len(),
                n * 1_000_000 <= i64::MAX,
                sample_rate_hz >= 1,
                self.physics@.len() == old(self).physics@.len() + i,
                self.physics@.take(old(self).physics@.len() as int) == old(self).physics@,
                forall|j: int|
                    0 <= j < i ==> #[trigger] self.physics@[old(self).physics@.len() + j] == (
                    PhysicsRow {
                        recording_id: rid,
                        time_offset_us: (j * 1_000_000 / (sample_rate_hz as int)) as i64,
                        frame: records@[j],
                        annotation_id: None,
                    }),
                rid == old(self).next_recording_id,
                self.next_recording_id == old(self).next_recording_id + 1,
                self.next_annotation_id == old(self).next_annotation_id + annotations@.len(),
                self.annotations@.len() == old(self).annotations@.len() + annotations@.len(),
                self.annotations@.take(old(self).annotations@.len() as int) == old(
                    self,
                ).annotations@,
                forall|j: int|
                    0 <= j < annotations@.len() ==> {
                        let row = #[trigger] self.annotations@[old(self).annotations@.len() + j];
                        &&& row.id == old(self).next_annotation_id + j
                        &&& row.recording_id == rid
                        &&& row.time_offset_us == annotations@[j].time_offset_us
                        &&& row.time_end_us == annotations@[j].time_end_us
                        &&& row.text@ == annotations@[j].text@
                        &&& row.tag@ == annotations@[j].tag@
                    },
                rid == old(self).next_recording_id,
                self.next_recording_id == old(self).next_recording_id + 1,
                self.recordings@.len() == old(self).recordings@.len() + 1,
                self.recordings@.take(old(self).recordings@.len() as int) == old(
                    self,
                ).recordings@,
                self.recordings@.last().id == rid,
                self.recordings@.last().source_file@ == source_file@,
                self.recordings@.last().created_at@ == created_at@,
                self.recordings@.last().sample_count == n as i64,
                self.recordings@.last().duration_us as int == (records@.len() as int) * 1_000_000
                    / (sample_rate_hz as int),
                self.statics@.len() == old(self).statics@.len() + 1,
                self.statics@.take(old(self).statics@.len() as int) == old(self).statics@,
                self.statics@.last().recording_id == rid,
                (match (self.statics@.last().frame, statics) {
                    (Some(f), Some(s)) => f@ == s@,
                    (None, None) => true,
                    _ => false,
                }),
                self.notes@.len() == old(self).notes@.len() + 1,
                self.notes@.take(old(self).notes@.len() as int) == old(self).notes@,
                self.notes@.last().recording_id == rid,
                (match notes_content {
                    Some(c) => notes_content_eq(self.notes@.last().content, *c),
                    None => notes_content_eq(self.notes@.last().content, RecordingNotesContent {
                        notes: None,
                        laptime: None,
                        result: None,
                        driver_impression: None,
                        tested_parameters: None,
                        conditions: None,
                        setup_notes: None,
                        session_goal: None,
                        incident: None,
                    }),
                }),
                self.graphics@ == old(self).graphics@,
            decreases n - i,
        {
            proof {
                assert(i * 1_000_000 <= n * 1_000_000) by (nonlinear_arith)
                    requires 0 <= i <= n;
                assert(i * 1_000_000 / (sample_rate_hz as int) <= i * 1_000_000)
                    by (nonlinear_arith)
                    requires sample_rate_hz >= 1, 0 <= i;
            }
            let t = ((i as u64) * 1_000_000 / (sample_rate_hz as u64)) as i64;
            self.physics.push(
                PhysicsRow {
                    recording_id: rid,
                    time_offset_us: t,
                    frame: records[i],
                    annotation_id: None,
                },
            );
            proof {
                assert(self.physics@.take(old(self).physics@.len() as int) =~= old(self).physics@);
            }
            i = i + 1;
        }
        proof {
            let olen = old(self).recordings@.len() as int;
            let last = self.recordings@.len() - 1;
            assert(self.recordings@[last].source_file@ == source_file@);
            assert(spec_recording_exists(*self, source_file@));
            assert forall|i: int| 0 <= i < olen implies #[trigger] self.recordings@[i] == old(
                self,
            ).recordings@[i] by {
                assert(self.recordings@.take(olen)[i] == self.recordings@[i]);
            }
            assert forall|i: int|
                0 <= i < self.recordings@.len() implies 0 <= (#[trigger] self.recordings@[i]).id
                < self.next_recording_id by {
                if i < olen {
                    assert(self.recordings@[i] == old(self).recordings@[i]);
                }
            }
            assert forall|i: int, j: int|
                0 <= i < j < self.recordings@.len() implies (#[trigger] self.recordings@[i]).id
                != (#[trigger] self.recordings@[j]).id by {
                if i < olen {
                    assert(self.recordings@[i] == old(self).recordings@[i]);
                }
                if j < olen {
                    assert(self.recordings@[j] == old(self).recordings@[j]);
                }
            }
            assert(self.ids_wf());
        }
        rid
    }

    /// Export a recording only when its source file is not in the store yet.
    ///
    /// This is the exporter's duplicate gate: a second run with the same
    /// source file name is a no-op skip, so running the exporter twice
    /// inserts exactly one recording row.  On a skip the store is untouched
    /// and `None` comes back; otherwise the recording is appended as by
    /// [`Self::export_to_store`] and its new id comes back.
    pub fn export_if_new(
        &mut self,
        source_file: &String,
        created_at: &String,
        records: &Vec<PhysicsRecord>,
        sample_rate_hz: u32,
        statics: Option<&StaticsRecord>,
        notes_content: Option<&RecordingNotesContent>,
        annotations: &Vec<Annotation>,
    ) -> (r: Option<i64>)
        requires
            old(self).ids_wf(),
            sample_rate_hz >= 1,
            records@.len() * 1_000_000 <= i64::MAX,
            old(self).next_recording_id < i64::MAX,
            old(self).next_annotation_id + annotations@.len() <= i64::MAX,
        ensures
            final(self).ids_wf(),
            spec_recording_exists(*old(self), source_file@) ==> *final(self) == *old(self) && r
                is None,
            !spec_recording_exists(*old(self), source_file@) ==> {
                &&& r == Some(old(self).next_recording_id)
                &&& final(self).next_recording_id == old(self).next_recording_id + 1
                &&& final(self).recordings@.len() == old(self).recordings@.len() + 1
                &&& final(self).recordings@.take(old(self).recordings@.len() as int) == old(
                    self,
                ).recordings@
                &&& final(self).recordings@.last().id == old(self).next_recording_id
                &&& final(self).recordings@.last().source_file@ == source_file@
                &&& final(self).recordings@.last().sample_count == records@.len()
                &&& final(self).physics@.len() == old(self).physics@.len() + records@.len()
                &&& final(self).physics@.take(old(self).physics@.len() as int) == old(
                    self,
                ).physics@
                &&& final(self).statics@.len() == old(self).statics@.len() + 1
                &&& final(self).notes@.len() == old(self).notes@.len() + 1
                &&& final(self).annotations@.len() == old(self).annotations@.len()
                    + annotations@.len()
                &&& final(self).graphics@ == old(self).graphics@
            },
            spec_recording_exists(*final(self), source_file@),
    {
        if self.recording_exists(source_file) {
            return None;
        }
        let rid = self.export_to_store(
            source_file,
            created_at,
            records,
            sample_rate_hz,
            statics,
            notes_content,
            annotations,
        );
        Some(rid)
    }

    /// Append graphics rows for an existing recording, timed by index at the
    /// graphics rate.
    pub fn export_graphics_to_store(
        &mut self,
        recording_id: i64,
        graphics_records: &Vec<GraphicsRecord>,
        sample_rate_hz: u32,
    )
        requires
            sample_rate_hz >= 1,
            graphics_records@.len() * 1_000_000 <= i64::MAX,
        ensures
            final(self).graphics@.len() == old(self).graphics@.len() + graphics_records@.len(),
            final(self).graphics@.take(old(self).graphics@.len() as int) == old(self).graphics@,
            forall|k: int|
                0 <= k < graphics_records@.len() ==> {
                    let row = #[trigger] final(self).graphics@[old(self).graphics@.len() + k];
                    &&& row.recording_id == recording_id
                    &&& row.time_offset_us == k * 1_000_000 / (sample_rate_hz as int)
                    &&& row.frame@ == graphics_records@[k]@
                },
            final(self).recordings@ == old(self).recordings@,
            final(self).physics@ == old(self).physics@,
            final(self).statics@ == old(self).statics@,
            final(self).notes@ == old(self).notes@,
            final(self).annotations@ == old(self).annotations@,
            final(self).next_recording_id == old(self).next_recording_id,
            final(self).next_annotation_id == old(self).next_annotation_id,
            old(self).ids_wf() ==> final(self).ids_wf(),
    {
        let n = graphics_records.len();
        let mut i: usize = 0;
        while i < n
            invariant
                i <= n,
                n == graphics_records@.len(),
                n * 1_000_000 <= i64::MAX,
                sample_rate_hz >= 1,
                self.graphics@.len() == old(self).graphics@.len() + i,
                self.graphics@.take(old(self).graphics@.len() as int) == old(self).graphics@,
                forall|j: int|
                    0 <= j < i ==> {
                        let row = #[trigger] self.graphics@[old(self).graphics@.len() + j];
                        &&& row.recording_id == recording_id
                        &&& row.time_offset_us == j * 1_000_000 / (sample_rate_hz as int)
                        &&& row.frame@ == graphics_records@[j]@
                    },
                self.recordings@ == old(self).recordings@,
                self.physics@ == old(self).physics@,
                self.statics@ == old(self).statics@,
                self.notes@ == old(self).notes@,
                self.annotations@ == old(self).annotations@,
                self.next_recording_id == old(self).next_recording_id,
                self.next_annotation_id == old(self).next_annotation_id,
            decreases n - i,
        {
            proof {
                assert(i * 1_000_000 <= n * 1_000_000) by (nonlinear_arith)
                    requires 0 <= i <= n;
                assert(i * 1_000_000 / (sample_rate_hz as int) <= i * 1_000_000)
                    by (nonlinear_arith)
                    requires sample_rate_hz >= 1, 0 <= i;
                assert(i * 1_000_000 / (sample_rate_hz as int) >= 0) by (nonlinear_arith)
                    requires sample_rate_hz >= 1, 0 <= i;
            }
            let t = ((i as u64) * 1_000_000 / (sample_rate_hz as u64)) as i64;
            self.graphics.push(
                GraphicsRow {
                    recording_id,
                    time_offset_us: t,
                    frame: graphics_records[i].duplicate(),
                },
            );
            proof {
                assert(self.graphics@.take(old(self).graphics@.len() as int) =~= old(
                    self,
                ).graphics@);
            }
            i = i + 1;
        }
    }
}

/// `suffix` closes `s`.
pub open spec fn ends_with(s: Seq<char>, suffix: Seq<char>) -> bool {
    s.len() >= suffix.len() && s.subrange(s.len() - suffix.len(), s.len() as int) == suffix
}

/// A file name the batch exporter picks up: a raw physics log — the raw
/// extension, not hidden, and not the graphics sibling.
pub open spec fn is_physics_log_name(s: Seq<char>) -> bool {
    &&& ends_with(s, ".rkyv"@)
    &&& (s.len() == 0 || s[0] != '.')
    &&& find_from(s, ".graphics.rkyv"@, 0) == -1
}

/// The batch exporter's skip rule: a file is exported exactly when it looks
/// like a raw physics log and its recording is not in the store yet.
pub fn should_export_file(name: &str, exists_in_db: bool) -> (r: bool)
    ensures
        r == (!exists_in_db && is_physics_log_name(name@)),
{
    proof {
        reveal_strlit(".rkyv");
        reveal_strlit(".graphics.rkyv");
    }
    if exists_in_db {
        return false;
    }
    let n = name.unicode_len();
    if n < 5 {
        proof {
            assert(!ends_with(name@, ".rkyv"@));
        }
        return false;
    }
    if !crate::notes::match_at(name, n, ".rkyv", 5, n - 5) {
        proof {
            assert(name@.subrange(n - 5, n as int) != ".rkyv"@);
        }
        return false;
    }
    if name.get_char(0) == '.' {
        return false;
    }
    match crate::notes::find_pat_from(name, n, ".graphics.rkyv", 14, 0) {
        Some(_) => false,
        None => {
            proof {
                assert(ends_with(name@, ".rkyv"@));
            }
            true
        },
    }
}

} // verus!
