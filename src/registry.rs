use vstd::prelude::*;

use dashmap::DashMap;

use crate::types::UploadStatus;

verus! {

#[verifier::external_type_specification]
#[verifier::external_body]
#[verifier::reject_recursive_types(K)]
#[verifier::reject_recursive_types(V)]
#[verifier::reject_recursive_types(S)]
pub struct ExDashMap<K, V, S>(DashMap<K, V, S>);

/// What the task registry keeps for a task while it is live.
#[derive(Debug, Clone)]
pub struct TaskEntry {
    pub remote_filename: String,
    /// The cancellation signal, observed by the task between operations.
    pub cancelled: bool,
    /// The task holds a concurrency slot.
    pub started: bool,
    /// The multipart session currently open for the task, if any.
    pub upload_id: Option<String>,
}

/// The entries of a task table, keyed by the characters of the task id.
pub uninterp spec fn task_entries(m: DashMap<String, TaskEntry>) -> Map<Seq<char>, TaskEntry>;

/// The entries of a status table, keyed by the characters of the task id.
pub uninterp spec fn status_entries(m: DashMap<String, UploadStatus>) -> Map<
    Seq<char>,
    UploadStatus,
>;

/// Relies on DashMap::new: the map starts empty.
#[verifier::external_body]
pub(crate) fn new_task_table() -> (r: DashMap<String, TaskEntry>)
    ensures
        task_entries(r).dom() == Set::<Seq<char>>::empty(),
{
    DashMap::new()
}

/// Relies on DashMap::insert: the key maps to the value afterwards, the
/// other entries stay.
#[verifier::external_body]
pub(crate) fn task_insert(m: &mut DashMap<String, TaskEntry>, key: String, value: TaskEntry)
    ensures
        task_entries(*final(m)) == task_entries(*old(m)).insert(key@, value),
{
    m.insert(key, value);
}

/// Relies on DashMap::get: the value stored under the key, if any (cloned).
#[verifier::external_body]
pub(crate) fn task_get(m: &DashMap<String, TaskEntry>, key: &str) -> (r: Option<TaskEntry>)
    ensures
        task_entries(*m).contains_key(key@) ==> r == Some(task_entries(*m)[key@]),
        !task_entries(*m).contains_key(key@) ==> r is None,
{
    m.get(key).map(|e| e.value().clone())
}

/// Relies on DashMap::remove: the key is gone afterwards, the other entries
/// stay.
#[verifier::external_body]
pub(crate) fn task_remove(m: &mut DashMap<String, TaskEntry>, key: &str)
    ensures
        task_entries(*final(m)) == task_entries(*old(m)).remove(key@),
{
    m.remove(key);
}

/// Relies on DashMap::new: the map starts empty.
#[verifier::external_body]
pub(crate) fn new_status_table() -> (r: DashMap<String, UploadStatus>)
    ensures
        status_entries(r).dom() == Set::<Seq<char>>::empty(),
{
    DashMap::new()
}

/// Relies on DashMap::insert: the key maps to the value afterwards, the
/// other entries stay.
#[verifier::external_body]
pub(crate) fn status_insert(m: &mut DashMap<String, UploadStatus>, key: String, value: UploadStatus)
    ensures
        status_entries(*final(m)) == status_entries(*old(m)).insert(key@, value),
{
    m.insert(key, value);
}

/// Relies on DashMap::get: the value stored under the key, if any (cloned).
#[verifier::external_body]
pub(crate) fn status_get(m: &DashMap<String, UploadStatus>, key: &str) -> (r: Option<UploadStatus>)
    ensures
        status_entries(*m).contains_key(key@) ==> r == Some(status_entries(*m)[key@]),
        !status_entries(*m).contains_key(key@) ==> r is None,
{
    m.get(key).map(|e| e.value().clone())
}

/// Relies on DashMap::remove: the key is gone afterwards, the other entries
/// stay.
#[verifier::external_body]
pub(crate) fn status_remove(m: &mut DashMap<String, UploadStatus>, key: &str)
    ensures
        status_entries(*final(m)) == status_entries(*old(m)).remove(key@),
{
    m.remove(key);
}

/// Relies on DashMap::iter: it visits every entry once, in no promised
/// order; each pair is cloned out.
#[verifier::external_body]
pub(crate) fn status_pairs(m: &DashMap<String, UploadStatus>) -> (r: Vec<(String, UploadStatus)>)
    ensures
        forall|i: int, j: int| 0 <= i < j < r@.len() ==> r@[i].0@ != r@[j].0@,
        forall|i: int|
            0 <= i < r@.len() ==> #[trigger] status_entries(*m).contains_key(r@[i].0@)
                && status_entries(*m)[r@[i].0@] == r@[i].1,
        forall|k: Seq<char>|
            #[trigger] status_entries(*m).contains_key(k) ==> exists|i: int|
                0 <= i < r@.len() && r@[i].0@ == k,
{
    m.iter().map(|e| (e.key().clone(), e.value().clone())).collect()
}

} // verus!
