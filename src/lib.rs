//! Verified core of an nginx module runtime.
//!
//! The cooperative task machinery that bridges `async` handlers onto the
//! nginx event loop is stated here as state machines over plain values:
//! the run queue and its thread-affinity check (`scheduler`), the life of a
//! spawned computation (`task`), the timer and subrequest futures (`sleep`,
//! `subrequest`) and the phase-handler adapter (`handler`). Each is generic
//! over the opaque handles of the runtime that drives it: steps, wakers and
//! task handles. Alongside them stand the request data, status codes,
//! methods and log levels that module code reads, and the build-time logic
//! that finds nginx's include directories and the types its bindings borrow.

pub mod bindgen_callbacks;
pub mod conf;
pub mod handler;
pub mod list;
pub mod log;
pub mod makefile;
pub mod nginx_source;
pub mod phases;
pub mod request;
pub mod scheduler;
pub mod sleep;
pub mod status;
pub mod subrequest;
pub mod task;
pub mod text;

pub use bindgen_callbacks::{
    Crate, DeriveTrait, NgxBindgenCallbacks, TypeFlags, TYPE_FLAG_COPY, TYPE_FLAG_DEBUG,
    TYPE_FLAG_DEFAULT, TYPE_FLAG_HASH, TYPE_FLAG_PARTIAL_ORD_OR_PARTIAL_EQ,
};
pub use conf::{
    conf_features_list, conf_os_list, expand_source, join_pieces, parse_conf, unquote, NginxConf,
};
pub use handler::{
    again_status, async_phase, handler, handler_status, AsyncHandlerError, AsyncRequestContext,
    HandlerFuture, HandlerStep,
};
pub use list::{list_iterator, NgxListIterator};
pub use log::{
    to_ngx_level, LogLevel, LogTarget, Logger, NGX_LOG_ALERT, NGX_LOG_CRIT, NGX_LOG_DEBUG,
    NGX_LOG_DEBUG_CORE, NGX_LOG_EMERG, NGX_LOG_ERR, NGX_LOG_INFO, NGX_LOG_NOTICE, NGX_LOG_STDERR,
    NGX_LOG_WARN,
};
pub use makefile::parse_includes_from_makefile;
pub use nginx_source::{str_to_uchar, NginxSource};
pub use phases::NgxHttpPhases;
pub use request::{
    HTTPStatus, InvalidMethod, Method, Request, NGX_HTTP_CONNECT, NGX_HTTP_COPY, NGX_HTTP_DELETE,
    NGX_HTTP_GET, NGX_HTTP_HEAD, NGX_HTTP_LOCK, NGX_HTTP_MKCOL, NGX_HTTP_MOVE, NGX_HTTP_OPTIONS,
    NGX_HTTP_PATCH, NGX_HTTP_POST, NGX_HTTP_PROPFIND, NGX_HTTP_PROPPATCH, NGX_HTTP_PUT,
    NGX_HTTP_TRACE, NGX_HTTP_UNKNOWN, NGX_HTTP_UNLOCK,
};
pub use scheduler::{ScheduleAction, Scheduler};
pub use sleep::{Sleep, SleepPoll};
pub use status::{
    ngx_make_opt, Status, NGX_ABORT, NGX_AGAIN, NGX_BUSY, NGX_DECLINED, NGX_DONE, NGX_ERROR, NGX_OK,
};
pub use subrequest::{
    AsyncSubRequest, AsyncSubRequestBuilder, AsyncSubRequestError, SubRequestIssue, SubRequestPoll,
    NGX_HTTP_SUBREQUEST_BACKGROUND, NGX_HTTP_SUBREQUEST_IN_MEMORY, NGX_HTTP_SUBREQUEST_WAITED,
};
pub use task::{spawn, TaskEvent, TaskState};
