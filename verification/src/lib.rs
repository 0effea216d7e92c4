//! Decision core of an asynchronous vsock transport.

mod accept;
mod addr;
mod connect;
mod connect_info;
mod error;
mod listener;
mod poll;
mod split;
mod stream;

pub use accept::{
    accept_action, alive_before, failure_of, handle_accept_error, incoming_action, incoming_run,
    incoming_step, lemma_accept_loop_never_fails, lemma_ignorable_failures_cost_no_wait,
    lemma_incoming_run, lemma_retry_goes_by_category, lemma_one_backoff_per_failure, lemma_transient_failures_are_retried,
    retry_after, AcceptAction, AcceptEvent, Incoming, IncomingState, Retry, ACCEPT_BACKOFF_SECS,
};
pub use addr::{SockAddr, VsockAddr, VMADDR_CID_ANY, VMADDR_CID_HOST, VMADDR_CID_HYPERVISOR, VMADDR_CID_LOCAL};
pub use connect::{
    connect_step, lemma_connect_resolves, lemma_forward_only, lemma_malformed_destination_fails,
    progress, resolves, ConnectAction, ConnectEvent, ConnectFuture, ConnectFutureState,
};
pub use connect_info::VsockConnectInfo;
pub use error::{ErrorKind, IoError};
pub use listener::{
    accept_failure_class, classify_accept_failure, ignorable, is_ignorable,
    lemma_accept_failure_classes, lemma_class_goes_by_category, listen_action, AcceptError,
    AcceptErrorClass, AcceptSource, ListenAction, ListenEvent, VsockListener,
};
pub use poll::{Async, Direction, Shutdown};
pub use stream::{
    bufs_max, io_action, lemma_failure_is_handed_on, lemma_poll_follows_actions,
    lemma_transfer_within_limit, lemma_would_block_is_pending, poll_outcome, IoAction, IoEvent,
    VsockStream, READ_BUFS_MAX, WRITE_BUFS_MAX,
};
pub use split::{
    lemma_paired_halves_share_the_stream, lemma_pairing, lemma_shutdown_repeats, lemma_split_then_unsplit,
    lemma_splits_do_not_pair, lemma_splits_of_different_streams_do_not_pair, paired,
    shutdown_action, split, split_owned, split_owned_spec, unsplit_spec, OwnedReadHalf,
    OwnedWriteHalf, PairMint, Pairing, ReadHalf, ShutdownAction, ShutdownEvent, WriteHalf,
};
