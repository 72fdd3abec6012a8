//! Bookkeeping of external image-generation tasks.
//!
//! The engine emits a fire-and-forget generation request and later receives
//! an asynchronous callback keyed by the task id. A successful callback
//! carries the image payload and label and the result is enqueued for the
//! spawn selector; a failed one is recorded for retry accounting — retrying
//! itself is the external pipeline's responsibility.

use vstd::prelude::*;

use crate::api::AiTaskStatus;

verus! {

/// One generation task row.
#[derive(Debug)]
pub struct AiTask {
    pub id: u64,
    pub room_id: u64,
    pub status: AiTaskStatus,
    pub image_data: Option<String>,
    pub generated_name: Option<String>,
    pub generated_description: Option<String>,
    pub error_message: Option<String>,
    pub retry_count: i64,
    pub completed_at: Option<i64>,
}

/// The model of a task row.
#[verifier::ext_equal]
pub ghost struct AiTaskModel {
    pub id: u64,
    pub room_id: u64,
    pub status: AiTaskStatus,
    pub image_data: Option<Seq<char>>,
    pub generated_name: Option<Seq<char>>,
    pub generated_description: Option<Seq<char>>,
    pub error_message: Option<Seq<char>>,
    pub retry_count: int,
    pub completed_at: Option<i64>,
}

impl View for AiTask {
    type V = AiTaskModel;

    open spec fn view(&self) -> AiTaskModel {
        AiTaskModel {
            id: self.id,
            room_id: self.room_id,
            status: self.status,
            image_data: match &self.image_data {
                Some(s) => Some(s@),
                None => None,
            },
            generated_name: match &self.generated_name {
                Some(s) => Some(s@),
                None => None,
            },
            generated_description: match &self.generated_description {
                Some(s) => Some(s@),
                None => None,
            },
            error_message: match &self.error_message {
                Some(s) => Some(s@),
                None => None,
            },
            retry_count: self.retry_count as int,
            completed_at: self.completed_at,
        }
    }
}

impl AiTask {
    /// A freshly created pending task.
    pub fn new(id: u64, room_id: u64) -> (r: AiTask)
        ensures
            r@.id == id,
            r@.room_id == room_id,
            r@.status is Pending,
            r@.retry_count == 0,
            r@.image_data is None,
            r@.completed_at is None,
    {
        AiTask {
            id,
            room_id,
            status: AiTaskStatus::Pending,
            image_data: None,
            generated_name: None,
            generated_description: None,
            error_message: None,
            retry_count: 0,
            completed_at: None,
        }
    }
}

/// Records a successful generation callback: the task completes once with
/// its payload and label.
pub fn complete_task(task: &mut AiTask, image_data: String, name: String, description: Option<
    String,
>, now: i64)
    ensures
        final(task)@ == (AiTaskModel {
            status: AiTaskStatus::Completed,
            image_data: Some(image_data@),
            generated_name: Some(name@),
            generated_description: match description {
                Some(d) => Some(d@),
                None => None,
            },
            completed_at: Some(now),
            ..old(task)@
        }),
{
    task.status = AiTaskStatus::Completed;
    task.image_data = Some(image_data);
    task.generated_name = Some(name);
    task.generated_description = description;
    task.completed_at = Some(now);
    proof {
        assert(task@ =~= AiTaskModel {
            status: AiTaskStatus::Completed,
            image_data: task@.image_data,
            generated_name: task@.generated_name,
            generated_description: task@.generated_description,
            completed_at: Some(now),
            ..old(task)@
        });
    }
}

/// Records a failed generation callback: the task fails, the message is
/// kept, and the retry account grows by one.
pub fn fail_task(task: &mut AiTask, error_message: Option<String>)
    requires
        old(task)@.retry_count < 0x7fff_ffff_ffff_ffff,
    ensures
        final(task)@ == (AiTaskModel {
            status: AiTaskStatus::Failed,
            error_message: match error_message {
                Some(m) => Some(m@),
                None => None,
            },
            retry_count: old(task)@.retry_count + 1,
            ..old(task)@
        }),
{
    task.status = AiTaskStatus::Failed;
    task.error_message = error_message;
    task.retry_count = task.retry_count + 1;
    proof {
        assert(task@ =~= AiTaskModel {
            status: AiTaskStatus::Failed,
            error_message: task@.error_message,
            retry_count: old(task)@.retry_count + 1,
            ..old(task)@
        });
    }
}

} // verus!
