//! Administrative client library for a regulated fungible token on an
//! object-based distributed ledger.
//!
//! The library contains the verified core of the client: the data model of
//! on-chain object references, the object-locator and fee-selection
//! decisions, the command-to-transaction compiler, the canonical payload
//! encoding that is signed and submitted, and the sequential pipeline state
//! machine that drives one command to one transaction.  Network transport,
//! key handling and command-line parsing live outside the library and feed
//! it plain values.

mod bytes;
mod command;
mod compiler;
mod error;
mod fee;
mod ident;
mod laws;
mod locator;
mod names;
mod payload;
mod router;
mod types;

pub use bytes::clone_bytes;
pub use bytes::bytes_eq;
pub use bytes::u64_le_bytes;
pub use bytes::encode_u64_le;
pub use bytes::decode_u64_le;
pub use bytes::lemma_u64_le_injective;
pub use types::ID_LENGTH;
pub use types::ObjectId;
pub use types::Address;
pub use types::Digest;
pub use types::ObjectReference;
pub use types::ObjectRefModel;
pub use types::SharedObjectHandle;
pub use types::SharedHandleModel;
pub use types::GasCoin;
pub use types::FeePlan;
pub use types::ExecutionResult;
pub use ident::is_ident_start;
pub use ident::is_ident_char;
pub use ident::valid_identifier;
pub use ident::check_identifier;
pub use ident::CoinTypeDescriptor;
pub use ident::CoinTypeModel;
pub use ident::Contract;
pub use ident::ContractError;
pub use names::framework_package_id;
pub use names::framework_package_bytes;
pub use names::deny_list_object_id;
pub use names::deny_list_object_bytes;
pub use names::coin_module_name;
pub use names::coin_module_bytes;
pub use names::deny_add_function_name;
pub use names::deny_add_function_bytes;
pub use names::deny_remove_function_name;
pub use names::deny_remove_function_bytes;
pub use names::mint_function_name;
pub use names::mint_function_bytes;
pub use names::deny_cap_type_name;
pub use names::deny_cap_type_bytes;
pub use names::treasury_cap_type_name;
pub use names::treasury_cap_type_bytes;
pub use names::zero_seq;
pub use names::zero_bytes;
pub use command::AppCommand;
pub use command::DenyListCommand;
pub use error::Stage;
pub use error::ErrorKind;
pub use error::PipelineError;
pub use locator::OwnerKind;
pub use locator::ObjectLookup;
pub use locator::CapabilityKind;
pub use locator::TypeFilter;
pub use locator::locate_shared;
pub use locator::locate_owned_capability;
pub use locator::capability_filter;
pub use fee::DEFAULT_FEE_BUDGET;
pub use fee::chosen_budget;
pub use fee::chosen_price;
pub use fee::excludes;
pub use fee::fee_eligible;
pub use fee::first_eligible;
pub use fee::id_excluded;
pub use fee::select_fee;
pub use compiler::Argument;
pub use compiler::ObjectArg;
pub use compiler::CallInput;
pub use compiler::MoveCall;
pub use compiler::Operation;
pub use compiler::CallGraph;
pub use compiler::input_is_shared;
pub use compiler::input_is_owned;
pub use compiler::input_is_pure;
pub use compiler::op_is_coin_call;
pub use compiler::call_arguments;
pub use compiler::deny_graph_shape;
pub use compiler::mint_graph_shape;
pub use compiler::transfer_graph_shape;
pub use compiler::compile_deny_list;
pub use compiler::deny_list_add;
pub use compiler::deny_list_remove;
pub use compiler::compile_mint_and_transfer;
pub use compiler::compile_transfer;
pub use compiler::compile;
pub use payload::length_prefixed;
pub use payload::cat_arguments;
pub use payload::cat_call_inputs;
pub use payload::cat_coin_types;
pub use payload::cat_operations;
pub use payload::enc_argument;
pub use payload::enc_object_ref;
pub use payload::enc_object_arg;
pub use payload::enc_call_input;
pub use payload::enc_coin_type;
pub use payload::enc_move_call;
pub use payload::enc_operation;
pub use payload::enc_call_graph;
pub use payload::enc_payload;
pub use payload::intent_prefix;
pub use payload::signing_message_of;
pub use payload::TransactionPayload;
pub use payload::append_bytes;
pub use payload::encode_argument;
pub use payload::encode_object_ref;
pub use payload::encode_object_arg;
pub use payload::encode_length_prefixed;
pub use payload::encode_call_input;
pub use payload::encode_coin_type;
pub use payload::encode_move_call;
pub use payload::encode_argument_list;
pub use payload::encode_operation;
pub use payload::encode_call_graph;
pub use payload::encode_payload;
pub use payload::signing_message;
pub use router::needs_shared;
pub use router::needs_capability;
pub use router::needs_subject;
pub use router::capability_kind_of;
pub use router::subject_id_of;
pub use router::ResolvedObjects;
pub use router::lemma_excludes_grow;
pub use router::lemma_excluded_matches_resolved;
pub use router::fundable;
pub use router::SubmitOutcome;
pub use router::PipelineState;
pub use router::failed_at;
pub use router::failure_kind;
pub use router::LookupPlan;
pub use router::lookup_wf;
pub use router::resolution_shared_ok;
pub use router::resolution_capability_ok;
pub use router::resolution_subject_ok;
pub use router::Router;
pub use laws::lemma_deny_call_table;
pub use laws::lemma_mint_call_table;
pub use laws::lemma_transfer_call_table;
pub use laws::lemma_initial_version_preserved;
pub use laws::lemma_cat_arguments_pointwise;
pub use laws::lemma_cat_coin_types_pointwise;
pub use laws::lemma_cat_call_inputs_pointwise;
pub use laws::lemma_cat_operations_pointwise;
pub use laws::lemma_coin_call_encoding;
pub use laws::lemma_deny_graph_encoding_deterministic;
pub use laws::lemma_shared_input_encoding;
pub use laws::lemma_owned_input_encoding;
pub use laws::lemma_pure_input_encoding;
pub use laws::lemma_transfer_op_encoding;
pub use laws::lemma_mint_graph_encoding_deterministic;
pub use laws::lemma_transfer_graph_encoding_deterministic;
pub use laws::lemma_signing_message_deterministic;
pub use laws::lemma_object_ref_encoding_injective;
