//! Pipeline configuration and its validation.
//!
//! The block interval must be positive: the filter divides by it, and an
//! interval of zero is a configuration error rejected at startup. The
//! remaining values — endpoints, the remote service address, the cache
//! directory, the message-size limit and the two flags — are carried through
//! to the collaborators unchanged. Whether an endpoint string is a
//! well-formed URL is the transport's own concern, checked where the
//! connection is opened.

use vstd::prelude::*;
use crate::errors::PipelineError;

verus! {

/// A validated pipeline configuration.
pub struct Config {
    /// HTTP RPC endpoint of the chain node.
    pub rpc_http_url: String,
    /// WebSocket RPC endpoint used for the header subscription.
    pub rpc_ws_url: String,
    /// Positive interval between proved blocks; a header is forwarded only
    /// when its number is a multiple of this.
    pub block_interval: u64,
    /// Address of the remote proving service.
    pub service_addr: String,
    /// Maximum remote message size in bytes, applied to both directions of
    /// the channel.
    pub max_message_size: u64,
    /// Local execution-input cache directory.
    pub cache_dir: String,
    /// Whether the proving service is asked to use a GPU.
    pub use_gpu: bool,
    /// Whether a cost estimate is requested after each submission.
    pub estimate_cost: bool,
}

impl Config {
    /// A configuration is well formed exactly when its interval is positive.
    pub open spec fn wf(self) -> bool {
        self.block_interval > 0
    }

    /// Validates the configured values. Rejects a zero interval, and accepts
    /// everything else unchanged.
    pub fn new(
        rpc_http_url: String,
        rpc_ws_url: String,
        block_interval: u64,
        service_addr: String,
        max_message_size: u64,
        cache_dir: String,
        use_gpu: bool,
        estimate_cost: bool,
    ) -> (r: Result<Config, PipelineError>)
        ensures
            block_interval > 0 <==> r is Ok,
            r matches Ok(c) ==> c.wf() && c.rpc_http_url@ == rpc_http_url@ && c.rpc_ws_url@
                == rpc_ws_url@ && c.block_interval == block_interval && c.service_addr@
                == service_addr@ && c.max_message_size == max_message_size && c.cache_dir@
                == cache_dir@ && c.use_gpu == use_gpu && c.estimate_cost == estimate_cost,
            r matches Err(e) ==> e == PipelineError::Configuration,
    {
        if block_interval == 0 {
            Err(PipelineError::Configuration)
        } else {
            Ok(
                Config {
                    rpc_http_url,
                    rpc_ws_url,
                    block_interval,
                    service_addr,
                    max_message_size,
                    cache_dir,
                    use_gpu,
                    estimate_cost,
                },
            )
        }
    }
}

} // verus!
