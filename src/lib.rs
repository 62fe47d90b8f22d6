//! Cross-variant gas and size comparison for token-contract binaries.
//!
//! The library holds the deterministic part of the benchmark: the call
//! script and its nonces, the per-variant run state, the deviation
//! arithmetic and the report grid. Running the virtual machine, reading
//! binaries and writing the report stay with the caller.

pub mod calls;
pub mod cell;
pub mod compare;
pub mod dump;
pub mod error;
pub mod metrics;
pub mod params;
pub mod report;
pub mod run;
pub mod script;
pub mod state;

pub use calls::{sequence_calls, CallSpec, CallTemplate};
pub use cell::format_cell;
pub use compare::{compare, ComparisonRow, VariantResult};
pub use dump::state_dump_line;
pub use error::ErrorKind;
pub use metrics::{deviations, min_value, percentage};
pub use params::{AllowanceParams, BalanceOfParams, TransferFromParams, TransferParams};
pub use report::{render_report, report_grid, token_headers, Report};
pub use run::{first_failure, Receipt, Run};
pub use script::{
    smoke_script, token_script, token_script_from, ACTOR_ID, GAS_LIMIT, METHOD_ALLOWANCE,
    METHOD_BALANCE_OF, METHOD_GET_NAME, METHOD_GET_SYMBOL, METHOD_TRANSFER, METHOD_TRANSFER_FROM,
    TOKEN_AMOUNT,
};
pub use state::{token_state, Funding, State};
