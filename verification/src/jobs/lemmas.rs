//! What holds of the registry, whatever records it holds.

use crate::clock::Timestamp;
use crate::jobs::manager::{
    job_id_text, sanitized_name, truncated_log, truncation_marker, all_reconciled, distinct_ids, finished, has_id, index_of, inserted, insertion_point, listed,
    lost_status, reconciled, record_of, record_wf, removable, removed, retained, running_record,
    shown, upserted, JobRecord, StatusView,
};
use crate::text::{
    hex_padded, join, lemma_hex_padded_value, lemma_join_suffix, lemma_lines_fit, lines,
};
use vstd::prelude::*;

verus! {

/// Whether the records are ordered newest first.
pub open spec fn newest_first(l: Seq<JobRecord>) -> bool {
    forall|i: int, j: int|
        0 <= i < j < l.len() ==> l[i].started_at.instant() >= l[j].started_at.instant()
}

/// A record put into a registry is found under its id, and no other id is affected.
pub proof fn lemma_upserted_is_found(s: Seq<JobRecord>, r: JobRecord)
    requires
        distinct_ids(s),
    ensures
        distinct_ids(upserted(s, r)),
        has_id(upserted(s, r), r.id),
        record_of(upserted(s, r), r.id) == r,
        forall|id: Seq<char>|
            id != r.id ==> has_id(upserted(s, r), id) == has_id(s, id) && (has_id(s, id)
                ==> record_of(upserted(s, r), id) == record_of(s, id)),
{
    let t = upserted(s, r);
    if has_id(s, r.id) {
        let i = index_of(s, r.id);
        assert(t[i].id == r.id);
        assert forall|id: Seq<char>| id != r.id implies has_id(t, id) == has_id(s, id) && (has_id(
            s,
            id,
        ) ==> record_of(t, id) == record_of(s, id)) by {
            if has_id(s, id) {
                let k = index_of(s, id);
                assert(t[k].id == id);
                let k2 = index_of(t, id);
                assert(t[k2].id == id);
                assert(s[k2].id == id);
            }
            if has_id(t, id) {
                let k = index_of(t, id);
                assert(s[k].id == id);
            }
        }
    } else {
        assert(t[s.len() as int].id == r.id);
        assert forall|a: int, b: int| 0 <= a < b < t.len() implies t[a].id != t[b].id by {
            if b == s.len() {
                assert(s[a].id != r.id);
            }
        }
        assert forall|id: Seq<char>| id != r.id implies has_id(t, id) == has_id(s, id) && (has_id(
            s,
            id,
        ) ==> record_of(t, id) == record_of(s, id)) by {
            if has_id(s, id) {
                let k = index_of(s, id);
                assert(t[k].id == id);
                let k2 = index_of(t, id);
                assert(t[k2].id == id);
                assert(s[k2].id == id);
            }
            if has_id(t, id) {
                let k = index_of(t, id);
                assert(s[k].id == id);
            }
        }
    }
    let j = index_of(t, r.id);
    assert(t[j].id == r.id);
}

/// A registry in which the record of a job was replaced by the record after the end of the
/// job was reported holds the same ids as before; under the id of the job it holds the new
/// record, and under every other id the record it held.
pub proof fn lemma_finished_in_registry(
    s: Seq<JobRecord>,
    id: Seq<char>,
    status: StatusView,
    now: Timestamp,
)
    requires
        distinct_ids(s),
        has_id(s, id),
    ensures
        distinct_ids(s.update(index_of(s, id), finished(record_of(s, id), status, now))),
        forall|other: Seq<char>|
            has_id(s.update(index_of(s, id), finished(record_of(s, id), status, now)), other)
                == has_id(s, other),
        record_of(s.update(index_of(s, id), finished(record_of(s, id), status, now)), id)
            == finished(record_of(s, id), status, now),
        forall|other: Seq<char>|
            other != id && has_id(s, other) ==> record_of(
                s.update(index_of(s, id), finished(record_of(s, id), status, now)),
                other,
            ) == record_of(s, other),
{
    let i = index_of(s, id);
    let r = finished(record_of(s, id), status, now);
    let t = s.update(i, r);
    assert(s[i].id == id);
    assert(r.id == id);
    assert forall|a: int, b: int| 0 <= a < b < t.len() implies t[a].id != t[b].id by {
        assert(t[a].id == s[a].id);
        assert(t[b].id == s[b].id);
    }
    assert forall|other: Seq<char>| has_id(t, other) == has_id(s, other) by {
        if has_id(t, other) {
            let k = index_of(t, other);
            assert(t[k].id == other);
            assert(s[k].id == other);
        }
        if has_id(s, other) {
            let k = index_of(s, other);
            assert(s[k].id == other);
            assert(t[k].id == other);
        }
    }
    assert(t[i].id == id);
    let j = index_of(t, id);
    assert(t[j].id == id);
    assert(j == i);
    assert forall|other: Seq<char>| other != id && has_id(s, other) implies record_of(t, other)
        == record_of(s, other) by {
        let k = index_of(s, other);
        assert(s[k].id == other);
        assert(t[k].id == other);
        let k2 = index_of(t, other);
        assert(t[k2].id == other);
        assert(k2 == k);
    }
}

/// A job that was just registered is found under its id as a running job that has not
/// finished.
pub proof fn lemma_registered_job_is_running(
    s: Seq<JobRecord>,
    id: Seq<char>,
    pid: u32,
    task_name: Seq<char>,
    transcript_path: Seq<char>,
    now: Timestamp,
)
    requires
        distinct_ids(s),
    ensures
        has_id(upserted(s, running_record(id, pid, task_name, transcript_path, now)), id),
        record_of(
            upserted(s, running_record(id, pid, task_name, transcript_path, now)),
            id,
        ).status is Running,
        record_of(
            upserted(s, running_record(id, pid, task_name, transcript_path, now)),
            id,
        ).finished_at is None,
{
    lemma_upserted_is_found(s, running_record(id, pid, task_name, transcript_path, now));
}

/// Reporting the end of a running job gives its record the reported status and the time
/// of the report; a record that is finished keeps both, however often an end is reported
/// after that.
pub proof fn lemma_finished_once(
    r: JobRecord,
    status: StatusView,
    now: Timestamp,
    later_status: StatusView,
    later: Timestamp,
)
    requires
        record_wf(r),
        now.wf(),
        !(status is Running),
    ensures
        record_wf(finished(r, status, now)),
        finished(r, status, now).finished_at is Some,
        r.status is Running ==> finished(r, status, now).status == status && finished(
            r,
            status,
            now,
        ).finished_at == Some(now),
        finished(finished(r, status, now), later_status, later) == finished(r, status, now),
{
}

/// A running record whose process is gone is failed by a reconciliation, and no later
/// reconciliation changes it again.
pub proof fn lemma_reconciled_stays_failed(
    r: JobRecord,
    dead: Seq<u32>,
    now: Timestamp,
    later_dead: Seq<u32>,
    later: Timestamp,
)
    requires
        r.status is Running,
        dead.contains(r.pid),
    ensures
        reconciled(r, dead, now).status == lost_status(),
        reconciled(r, dead, now).finished_at == Some(now),
        reconciled(reconciled(r, dead, now), later_dead, later) == reconciled(r, dead, now),
{
}

/// A second reconciliation that finds the same processes gone changes no record.
pub proof fn lemma_reconciliation_settles(
    s: Seq<JobRecord>,
    dead: Seq<u32>,
    now: Timestamp,
    later: Timestamp,
)
    ensures
        all_reconciled(all_reconciled(s, dead, now), dead, later) == all_reconciled(s, dead, now),
{
    assert(all_reconciled(all_reconciled(s, dead, now), dead, later) =~= all_reconciled(
        s,
        dead,
        now,
    ));
}

/// A reconciliation keeps the ids, and with them the promise of the registry.
pub proof fn lemma_reconciliation_keeps_ids(s: Seq<JobRecord>, dead: Seq<u32>, now: Timestamp)
    requires
        distinct_ids(s),
    ensures
        distinct_ids(all_reconciled(s, dead, now)),
        all_reconciled(s, dead, now).len() == s.len(),
        forall|i: int| 0 <= i < s.len() ==> all_reconciled(s, dead, now)[i].id == s[i].id,
{
    let t = all_reconciled(s, dead, now);
    assert forall|a: int, b: int| 0 <= a < b < t.len() implies t[a].id != t[b].id by {
        assert(t[a].id == s[a].id);
        assert(t[b].id == s[b].id);
    }
}

/// A clean-up removes exactly the records of ended jobs that started before the cut-off:
/// what it leaves and what it removes make up the registry, and a running job is never
/// among the removed, whatever its age.
pub proof fn lemma_cleanup_parts(s: Seq<JobRecord>, keep_days: int, now: Timestamp)
    ensures
        retained(s, keep_days, now).len() + removed(s, keep_days, now).len() == s.len(),
        forall|r: JobRecord|
            retained(s, keep_days, now).contains(r) <==> s.contains(r) && !removable(
                r,
                keep_days,
                now,
            ),
        forall|r: JobRecord|
            removed(s, keep_days, now).contains(r) <==> s.contains(r) && removable(
                r,
                keep_days,
                now,
            ),
        forall|r: JobRecord|
            s.contains(r) && r.status is Running ==> retained(s, keep_days, now).contains(r),
        forall|r: JobRecord|
            removed(s, keep_days, now).contains(r) ==> !(r.status is Running)
                && r.started_at.instant() + keep_days * 86_400 * 1_000_000_000 < now.instant(),
    decreases s.len(),
{
    if s.len() > 0 {
        let head = s.drop_last();
        let last = s.last();
        lemma_cleanup_parts(head, keep_days, now);
        let kept = retained(s, keep_days, now);
        let gone = removed(s, keep_days, now);
        let kept0 = retained(head, keep_days, now);
        let gone0 = removed(head, keep_days, now);
        assert forall|r: JobRecord| s.contains(r) <==> head.contains(r) || r == last by {
            if s.contains(r) {
                let i = choose|i: int| 0 <= i < s.len() && s[i] == r;
                if i < head.len() {
                    assert(head[i] == r);
                }
            }
            if head.contains(r) {
                let i = choose|i: int| 0 <= i < head.len() && head[i] == r;
                assert(s[i] == r);
            }
            if r == last {
                assert(s[s.len() - 1] == r);
            }
        }
        assert forall|r: JobRecord| kept.contains(r) <==> s.contains(r) && !removable(
            r,
            keep_days,
            now,
        ) by {
            if removable(last, keep_days, now) {
                assert(kept == kept0);
            } else {
                assert(kept == kept0.push(last));
                if kept.contains(r) {
                    let i = choose|i: int| 0 <= i < kept.len() && kept[i] == r;
                    if i < kept0.len() {
                        assert(kept0[i] == r);
                    }
                }
                if kept0.contains(r) {
                    let i = choose|i: int| 0 <= i < kept0.len() && kept0[i] == r;
                    assert(kept[i] == r);
                }
                if r == last {
                    assert(kept[kept.len() - 1] == r);
                }
            }
        }
        assert forall|r: JobRecord| gone.contains(r) <==> s.contains(r) && removable(
            r,
            keep_days,
            now,
        ) by {
            if !removable(last, keep_days, now) {
                assert(gone == gone0);
            } else {
                assert(gone == gone0.push(last));
                if gone.contains(r) {
                    let i = choose|i: int| 0 <= i < gone.len() && gone[i] == r;
                    if i < gone0.len() {
                        assert(gone0[i] == r);
                    }
                }
                if gone0.contains(r) {
                    let i = choose|i: int| 0 <= i < gone0.len() && gone0[i] == r;
                    assert(gone[i] == r);
                }
                if r == last {
                    assert(gone[gone.len() - 1] == r);
                }
            }
        }
    }
}

/// Where a record goes into a listing: after every record that started no earlier, and
/// before one that started strictly earlier.
pub proof fn lemma_insertion_point(acc: Seq<JobRecord>, t: int, from: int)
    requires
        0 <= from <= acc.len(),
    ensures
        from <= insertion_point(acc, t, from) <= acc.len(),
        forall|k: int|
            from <= k < insertion_point(acc, t, from) ==> acc[k].started_at.instant() >= t,
        insertion_point(acc, t, from) < acc.len() ==> acc[insertion_point(
            acc,
            t,
            from,
        )].started_at.instant() < t,
    decreases acc.len() - from,
{
    if from < acc.len() && acc[from].started_at.instant() >= t {
        lemma_insertion_point(acc, t, from + 1);
    }
}

/// Putting a record into a listing that is ordered newest first leaves it so, and adds
/// this record and no other.
pub proof fn lemma_inserted(acc: Seq<JobRecord>, r: JobRecord)
    requires
        newest_first(acc),
    ensures
        newest_first(inserted(acc, r)),
        inserted(acc, r).len() == acc.len() + 1,
        forall|x: JobRecord| inserted(acc, r).contains(x) <==> acc.contains(x) || x == r,
{
    let t = r.started_at.instant();
    let p = insertion_point(acc, t, 0);
    lemma_insertion_point(acc, t, 0);
    let out = inserted(acc, r);
    assert forall|i: int, j: int| 0 <= i < j < out.len() implies out[i].started_at.instant()
        >= out[j].started_at.instant() by {
        if j < p {
        } else if j == p {
        } else if i < p {
            assert(out[j] == acc[j - 1]);
            assert(acc[p].started_at.instant() >= acc[j - 1].started_at.instant() || p == j - 1);
        } else if i == p {
            assert(out[j] == acc[j - 1]);
            assert(acc[p].started_at.instant() >= acc[j - 1].started_at.instant() || p == j - 1);
        } else {
            assert(out[i] == acc[i - 1]);
            assert(out[j] == acc[j - 1]);
        }
    }
    assert forall|x: JobRecord| out.contains(x) <==> acc.contains(x) || x == r by {
        if out.contains(x) {
            let i = choose|i: int| 0 <= i < out.len() && out[i] == x;
            if i < p {
                assert(acc[i] == x);
            } else if i > p {
                assert(acc[i - 1] == x);
            }
        }
        if acc.contains(x) {
            let i = choose|i: int| 0 <= i < acc.len() && acc[i] == x;
            if i < p {
                assert(out[i] == x);
            } else {
                assert(out[i + 1] == x);
            }
        }
        if x == r {
            assert(out[p] == x);
        }
    }
}

/// A listing is ordered newest first and holds exactly the records of the registry that
/// are shown: all of them, or the running ones.
pub proof fn lemma_listing(s: Seq<JobRecord>, include_completed: bool)
    ensures
        newest_first(listed(s, include_completed)),
        listed(s, include_completed).len() <= s.len(),
        forall|x: JobRecord|
            listed(s, include_completed).contains(x) <==> s.contains(x) && shown(
                x,
                include_completed,
            ),
    decreases s.len(),
{
    if s.len() > 0 {
        let head = s.drop_last();
        let last = s.last();
        lemma_listing(head, include_completed);
        let rest = listed(head, include_completed);
        let out = listed(s, include_completed);
        assert forall|r: JobRecord| s.contains(r) <==> head.contains(r) || r == last by {
            if s.contains(r) {
                let i = choose|i: int| 0 <= i < s.len() && s[i] == r;
                if i < head.len() {
                    assert(head[i] == r);
                }
            }
            if head.contains(r) {
                let i = choose|i: int| 0 <= i < head.len() && head[i] == r;
                assert(s[i] == r);
            }
            if r == last {
                assert(s[s.len() - 1] == r);
            }
        }
        if shown(last, include_completed) {
            lemma_inserted(rest, last);
        }
    }
}

/// Two ids made for the same task under the same time stamp differ whenever their random
/// parts differ.
pub proof fn lemma_job_ids_differ(stamp: Seq<char>, task_name: Seq<char>, first: u32, second: u32)
    requires
        first != second,
    ensures
        job_id_text(stamp, task_name, first) != job_id_text(stamp, task_name, second),
{
    let head = stamp + "-"@ + sanitized_name(task_name) + "-"@;
    let a = hex_padded(first as nat, 6);
    let b = hex_padded(second as nat, 6);
    lemma_hex_padded_value(first as nat, 6);
    lemma_hex_padded_value(second as nat, 6);
    if job_id_text(stamp, task_name, first) == job_id_text(stamp, task_name, second) {
        assert(job_id_text(stamp, task_name, first) == head + a);
        assert(job_id_text(stamp, task_name, second) == head + b);
        assert((head + a).len() == head.len() + a.len());
        assert((head + b).len() == head.len() + b.len());
        assert((head + a).subrange(head.len() as int, (head + a).len() as int) =~= a);
        assert((head + b).subrange(head.len() as int, (head + b).len() as int) =~= b);
        assert(a == b);
    }
}

/// The marker line that stands before the lines kept of the log with the given content.
pub open spec fn marker_of(content: Seq<char>) -> Seq<char> {
    truncation_marker((lines(content).len() - lines(content).len() / 2) as nat)
}

/// The lines kept of the log with the given content, joined by line feeds.
pub open spec fn kept_of(content: Seq<char>) -> Seq<char> {
    join(lines(content).subrange((lines(content).len() / 2) as int, lines(content).len() as int), "\n"@)
}

/// A cut log is its marker line, a line feed and the kept lines as they were. It is longer
/// than the log it was cut from by the marker line at most, and it is at or below a cap of
/// so many characters exactly when the marker line and the kept lines are.
pub proof fn lemma_truncated_log(content: Seq<char>, cap: int)
    ensures
        truncated_log(content) == marker_of(content) + "\n"@ + kept_of(content),
        kept_of(content).len() <= content.len(),
        truncated_log(content).len() <= marker_of(content).len() + 1 + content.len(),
        truncated_log(content).len() <= cap <==> marker_of(content).len() + 1 + kept_of(
            content,
        ).len() <= cap,
{
    reveal_strlit("\n");
    let all = lines(content);
    lemma_lines_fit(content, 0);
    lemma_join_suffix(all, (all.len() / 2) as int, "\n"@);
}

} // verus!
