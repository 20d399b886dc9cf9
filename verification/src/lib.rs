//! An actor-model concurrency runtime core: typed bounded mailboxes,
//! a supervised scope tree with hierarchical cancellation, late-bound
//! address resolution, and a request/response correlation protocol.
//!
//! The decision logic of the runtime is verified here; the asynchronous
//! shell that drives it over a task executor lives outside this crate.

mod act;
mod actor;
mod cancel_tree;
mod errors;
mod link;
mod mailbox;
mod reply_map;
mod rpc;
mod scope;
mod task;
mod token;

pub use act::prepare_call;
pub use act::Act;
pub use act::ActorSignal;
pub use act::Reply;
pub use act::ReplyReceiver;
pub use act::ReplyPoll;
pub use actor::Actor;
pub use actor::ActorId;
pub use actor::ActorResult;
pub use cancel_tree::chain_reaches;
pub use cancel_tree::lemma_cancel_idempotent;
pub use cancel_tree::lemma_cancel_monotone;
pub use cancel_tree::lemma_cancel_only_descendants;
pub use cancel_tree::lemma_cancel_reaches_descendants;
pub use cancel_tree::lineage_cancelled;
pub use cancel_tree::CancelTree;
pub use errors::ActorError;
pub use errors::CallError;
pub use errors::LinkError;
pub use errors::RecvError;
pub use errors::SendError;
pub use link::attach_msg;
pub use link::Link;
pub use link::LinkPublisher;
pub use mailbox::lemma_per_sender_fifo;
pub use mailbox::Mailbox;
pub use reply_map::ReplyMap;
pub use rpc::ComputeMsg;
pub use rpc::ComputeRequest;
pub use rpc::ComputeResponse;
pub use rpc::RpcEnvelope;
pub use rpc::RpcMessage;
pub use rpc::ONE_WAY;
pub use scope::classify_join_failure;
pub use scope::lemma_fresh_identity_unregistered;
pub use scope::output_of_join_failure;
pub use scope::output_of_task_result;
pub use scope::ActorOutput;
pub use scope::Scope;
pub use scope::ScopeContext;
pub use scope::SpawnSlot;
pub use task::ActorSelf;
pub use task::ActorTask;
pub use task::ActorTaskError;
pub use task::TaskPhase;
pub use task::TaskProgress;
