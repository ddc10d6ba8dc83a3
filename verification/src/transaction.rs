//! The canonical transaction record, its four kind-specific projections,
//! the per-kind execution contexts, and the dispatch decision logic.
//!
//! A record carries no kind tag: the caller supplies the execution kind, and
//! the record is projected into that kind's protocol-accurate request.  Each
//! projection validates every 256-bit field against the engine's native
//! domain and fails with the field-validation error rather than truncate.
//! The execution engine itself is an external collaborator: [`Transaction::execute`]
//! performs every dispatch step that precedes the engine call and hands back
//! the prepared request and context, and [`wrap_engine_outcome`] folds the
//! engine's answer into the uniform result type.

use vstd::prelude::*;

use crate::bounded::BoundedVec;
use crate::event::EventWrapper;
use crate::felt::{
    clone_felts, words_to_felts, Fee, StarkContractAddress, StarkFelt, StarknetApiError,
};
use crate::word::{
    addr_in_range, all_felts, felt_in_range, sentinel_address, ContractAddressWrapper, Word256,
};

verus! {

/// The execution kinds a record can be dispatched under.
#[derive(Clone, Copy, PartialEq, Eq, Structural, Debug)]
pub enum TxType {
    /// A value transfer or contract invocation.
    InvokeTx,
    /// A message delivered from the settlement layer.
    L1HandlerTx,
    /// A contract-class declaration.
    DeclareTx,
    /// An account deployment.
    DeployAccountTx,
}

/// The target entry point stored with a record: an optional selector, the
/// call data, and an optional class hash.
pub struct CallEntryPointWrapper {
    /// The entry-point selector, if one was recorded.
    pub entrypoint_selector: Option<Word256>,
    /// The call data handed to the entry point.
    pub calldata: BoundedVec<Word256>,
    /// The class hash the call is made against, if one was recorded.
    pub class_hash: Option<Word256>,
}

impl CallEntryPointWrapper {
    /// The wrapper respects the capacity bound on its call data.
    pub open spec fn wf(self) -> bool {
        self.calldata.wf()
    }

    /// Creates a new entry-point wrapper.
    pub fn new(
        entrypoint_selector: Option<Word256>,
        calldata: BoundedVec<Word256>,
        class_hash: Option<Word256>,
    ) -> (r: CallEntryPointWrapper)
        ensures
            r.entrypoint_selector == entrypoint_selector,
            r.calldata@ == calldata@,
            r.class_hash == class_hash,
    {
        CallEntryPointWrapper { entrypoint_selector, calldata, class_hash }
    }
}

impl Default for CallEntryPointWrapper {
    /// No selector, no call data, no class hash.
    fn default() -> (r: CallEntryPointWrapper)
        ensures
            r.entrypoint_selector is None,
            r.calldata@.len() == 0,
            r.class_hash is None,
            r.wf(),
    {
        CallEntryPointWrapper {
            entrypoint_selector: None,
            calldata: BoundedVec::empty(),
            class_hash: None,
        }
    }
}

/// An opaque compiled contract class, present only on declaration records.
/// Its payload is resolved and interpreted by the engine, never read here.
pub struct ContractClassWrapper {
    /// The compiled program, as the engine expects it.
    pub program: Vec<u8>,
}

/// The canonical, protocol-agnostic stored representation of a transaction.
pub struct Transaction {
    /// Protocol version tag.
    pub version: Word256,
    /// The consensus-assigned transaction hash.
    pub hash: Word256,
    /// Authorization data, at most the capacity bound of elements.
    pub signature: BoundedVec<Word256>,
    /// Events produced by execution, at most the capacity bound of them.
    pub events: BoundedVec<EventWrapper>,
    /// The sending (or, for deployments, the deployed) contract address.
    pub sender_address: ContractAddressWrapper,
    /// The sender's nonce.
    pub nonce: Word256,
    /// The target entry point.
    pub call_entrypoint: CallEntryPointWrapper,
    /// The compiled class, present only for declaration records.
    pub contract_class: Option<ContractClassWrapper>,
}

/// The engine-facing request of an invoke dispatch.
pub struct InvokeTransaction {
    /// The transaction hash, in the engine's domain.
    pub transaction_hash: StarkFelt,
    /// The fee bound; a fixed placeholder, not yet read from the record.
    pub max_fee: Fee,
    /// The protocol version.
    pub version: StarkFelt,
    /// The signature elements.
    pub signature: Vec<StarkFelt>,
    /// The sender's nonce.
    pub nonce: StarkFelt,
    /// The sending account.
    pub sender_address: StarkContractAddress,
    /// The call data; selector routing lives inside it.
    pub calldata: Vec<StarkFelt>,
    /// An explicit entry-point selector.  The projection never sets one:
    /// invoke dispatch must route entirely through the call data.
    pub entry_point_selector: Option<StarkFelt>,
}

/// The engine-facing request of a settlement-layer message dispatch.  It
/// carries no fee and no signature: the protocol defines none for this kind.
pub struct L1HandlerTransaction {
    /// The transaction hash, in the engine's domain.
    pub transaction_hash: StarkFelt,
    /// The protocol version.
    pub version: StarkFelt,
    /// The sender's nonce.
    pub nonce: StarkFelt,
    /// The target contract.
    pub contract_address: StarkContractAddress,
    /// The call data.
    pub calldata: Vec<StarkFelt>,
    /// The entry-point selector; zero when the record holds none.
    pub entry_point_selector: StarkFelt,
}

/// The engine-facing request of a class-declaration dispatch.
pub struct DeclareTransaction {
    /// The transaction hash, in the engine's domain.
    pub transaction_hash: StarkFelt,
    /// The fee bound; a fixed placeholder, not yet read from the record.
    pub max_fee: Fee,
    /// The protocol version.
    pub version: StarkFelt,
    /// The signature elements.
    pub signature: Vec<StarkFelt>,
    /// The sender's nonce.
    pub nonce: StarkFelt,
    /// The declaring account.
    pub sender_address: StarkContractAddress,
    /// The declared class hash; zero when the record holds none.
    pub class_hash: StarkFelt,
}

/// The engine-facing request of an account-deployment dispatch.
pub struct DeployAccountTransaction {
    /// The transaction hash, in the engine's domain.
    pub transaction_hash: StarkFelt,
    /// The fee bound; a fixed placeholder, not yet read from the record.
    pub max_fee: Fee,
    /// The protocol version.
    pub version: StarkFelt,
    /// The signature elements.
    pub signature: Vec<StarkFelt>,
    /// The deployment nonce.
    pub nonce: StarkFelt,
    /// The address the account is deployed at, taken from the record's
    /// sender field.
    pub contract_address: StarkContractAddress,
    /// The class hash of the deployed account; zero when the record holds
    /// none.
    pub class_hash: StarkFelt,
    /// The constructor call data, taken from the entry-point wrapper.
    pub constructor_calldata: Vec<StarkFelt>,
    /// The deployment salt; a fixed zero placeholder.
    pub contract_address_salt: StarkFelt,
}

/// The ephemeral authorization bundle handed to the engine beside a request:
/// built fresh per call from the already-projected request, never persisted.
pub struct AccountTransactionContext {
    /// The transaction hash.
    pub transaction_hash: StarkFelt,
    /// The fee bound.
    pub max_fee: Fee,
    /// The protocol version.
    pub version: StarkFelt,
    /// The signature elements.
    pub signature: Vec<StarkFelt>,
    /// The nonce.
    pub nonce: StarkFelt,
    /// The account the dispatch is charged to.
    pub sender_address: StarkContractAddress,
}

/// An engine-internal failure: the engine rejected or reverted the
/// transaction.  Opaque to this layer and passed through unchanged.
#[derive(Clone, Copy, PartialEq, Eq, Structural, Debug)]
pub struct EngineExecutionError {
    /// The engine's own error discriminant, carried through verbatim.
    pub code: u64,
}

/// The failure domain of a dispatch.  The three kinds are never conflated.
#[derive(Clone, Copy, PartialEq, Eq, Structural, Debug)]
pub enum TransactionExecutionErrorWrapper {
    /// A numeric or address field does not fit the engine's native domain;
    /// raised during projection.
    StarknetApi(StarknetApiError),
    /// An invoke dispatch carried an explicit entry-point selector, which
    /// the protocol forbids; raised before the engine is invoked.
    SpecifiedEntryPoint,
    /// The engine itself failed; passed through unchanged.
    TransactionExecution(EngineExecutionError),
}

/// The uniform result of a dispatch.
pub type TransactionExecutionResultWrapper<T> = Result<T, TransactionExecutionErrorWrapper>;

/// A kind-specific request, ready for the engine.
pub enum Request {
    /// An invoke request.
    Invoke(InvokeTransaction),
    /// A settlement-layer message request.
    L1Handler(L1HandlerTransaction),
    /// A class-declaration request.
    Declare(DeclareTransaction),
    /// An account-deployment request.
    DeployAccount(DeployAccountTransaction),
}

/// Everything the engine needs from this layer for one dispatch: the
/// projected request and the execution context built from it.
pub struct PreparedExecution {
    /// The kind-specific request.
    pub request: Request,
    /// The context built from that request.
    pub context: AccountTransactionContext,
}

/// The context matches an invoke request: every field is carried over.
pub open spec fn invoke_context_matches(
    tx: InvokeTransaction,
    c: AccountTransactionContext,
) -> bool {
    c.transaction_hash == tx.transaction_hash && c.max_fee == tx.max_fee && c.version
        == tx.version && c.signature@ == tx.signature@ && c.nonce == tx.nonce
        && c.sender_address == tx.sender_address
}

/// The context matches a settlement-layer request: no fee and an empty
/// signature, the rest carried over.
pub open spec fn l1_handler_context_matches(
    tx: L1HandlerTransaction,
    c: AccountTransactionContext,
) -> bool {
    c.transaction_hash == tx.transaction_hash && c.max_fee == (Fee(0)) && c.version
        == tx.version && c.signature@ == Seq::<StarkFelt>::empty() && c.nonce == tx.nonce
        && c.sender_address == tx.contract_address
}

/// The context matches a declaration request: every field is carried over.
pub open spec fn declare_context_matches(
    tx: DeclareTransaction,
    c: AccountTransactionContext,
) -> bool {
    c.transaction_hash == tx.transaction_hash && c.max_fee == tx.max_fee && c.version
        == tx.version && c.signature@ == tx.signature@ && c.nonce == tx.nonce
        && c.sender_address == tx.sender_address
}

/// The context matches a deployment request: the deployed address stands as
/// the charged account, the rest carried over.
pub open spec fn deploy_account_context_matches(
    tx: DeployAccountTransaction,
    c: AccountTransactionContext,
) -> bool {
    c.transaction_hash == tx.transaction_hash && c.max_fee == tx.max_fee && c.version
        == tx.version && c.signature@ == tx.signature@ && c.nonce == tx.nonce
        && c.sender_address == tx.contract_address
}

impl Transaction {
    /// The record respects the capacity bounds on its sequences.
    pub open spec fn wf(self) -> bool {
        self.signature.wf() && self.events.wf() && self.call_entrypoint.wf()
    }

    /// The recorded selector, or zero where none was recorded.
    pub open spec fn spec_selector_or_zero(self) -> Word256 {
        match self.call_entrypoint.entrypoint_selector {
            Some(w) => w,
            None => Word256 { w0: 0, w1: 0, w2: 0, w3: 0 },
        }
    }

    /// The recorded class hash, or zero where none was recorded.
    pub open spec fn spec_class_hash_or_zero(self) -> Word256 {
        match self.call_entrypoint.class_hash {
            Some(w) => w,
            None => Word256 { w0: 0, w1: 0, w2: 0, w3: 0 },
        }
    }

    /// The sender field fits the engine's contract-address domain.
    pub open spec fn sender_ok(self) -> bool {
        felt_in_range(self.sender_address) && addr_in_range(self.sender_address)
    }

    /// Hash, version, nonce and sender all fit the engine's domains: the
    /// fields every projection carries.
    pub open spec fn core_fields_ok(self) -> bool {
        felt_in_range(self.hash) && felt_in_range(self.version) && felt_in_range(self.nonce)
            && self.sender_ok()
    }

    /// Every field an invoke projection reads is in range.
    pub open spec fn invoke_fields_ok(self) -> bool {
        self.core_fields_ok() && all_felts(self.signature@) && all_felts(
            self.call_entrypoint.calldata@,
        )
    }

    /// Every field a settlement-layer projection reads is in range.
    pub open spec fn l1_handler_fields_ok(self) -> bool {
        self.core_fields_ok() && all_felts(self.call_entrypoint.calldata@) && felt_in_range(
            self.spec_selector_or_zero(),
        )
    }

    /// Every field a declaration projection reads is in range.
    pub open spec fn declare_fields_ok(self) -> bool {
        self.core_fields_ok() && all_felts(self.signature@) && felt_in_range(
            self.spec_class_hash_or_zero(),
        )
    }

    /// Every field a deployment projection reads is in range.
    pub open spec fn deploy_account_fields_ok(self) -> bool {
        self.core_fields_ok() && all_felts(self.signature@) && felt_in_range(
            self.spec_class_hash_or_zero(),
        ) && all_felts(self.call_entrypoint.calldata@)
    }

    /// Every field the projection of the given kind reads is in range.
    pub open spec fn fields_ok_for(self, tx_type: TxType) -> bool {
        match tx_type {
            TxType::InvokeTx => self.invoke_fields_ok(),
            TxType::L1HandlerTx => self.l1_handler_fields_ok(),
            TxType::DeclareTx => self.declare_fields_ok(),
            TxType::DeployAccountTx => self.deploy_account_fields_ok(),
        }
    }

    /// The invoke request was projected from this record: hash, version,
    /// nonce, sender, signature and call data preserved in value, the
    /// placeholder fee set, and no explicit selector.
    pub open spec fn invoke_matches(self, tx: InvokeTransaction) -> bool {
        tx.transaction_hash.value == self.hash && tx.max_fee == (Fee(2)) && tx.version.value
            == self.version && tx.signature@.len() == self.signature@.len() && (forall|i: int|
            0 <= i < self.signature@.len() ==> (#[trigger] tx.signature@[i]).value
                == self.signature@[i]) && tx.nonce.value == self.nonce
            && tx.sender_address.value.value == self.sender_address && tx.calldata@.len()
            == self.call_entrypoint.calldata@.len() && (forall|i: int|
            0 <= i < self.call_entrypoint.calldata@.len() ==> (#[trigger] tx.calldata@[i]).value
                == self.call_entrypoint.calldata@[i]) && tx.entry_point_selector is None
    }

    /// The settlement-layer request was projected from this record.
    pub open spec fn l1_handler_matches(self, tx: L1HandlerTransaction) -> bool {
        tx.transaction_hash.value == self.hash && tx.version.value == self.version
            && tx.nonce.value == self.nonce && tx.contract_address.value.value
            == self.sender_address && tx.calldata@.len() == self.call_entrypoint.calldata@.len()
            && (forall|i: int|
            0 <= i < self.call_entrypoint.calldata@.len() ==> (#[trigger] tx.calldata@[i]).value
                == self.call_entrypoint.calldata@[i]) && tx.entry_point_selector.value
            == self.spec_selector_or_zero()
    }

    /// The declaration request was projected from this record.
    pub open spec fn declare_matches(self, tx: DeclareTransaction) -> bool {
        tx.transaction_hash.value == self.hash && tx.max_fee == (Fee(2)) && tx.version.value
            == self.version && tx.signature@.len() == self.signature@.len() && (forall|i: int|
            0 <= i < self.signature@.len() ==> (#[trigger] tx.signature@[i]).value
                == self.signature@[i]) && tx.nonce.value == self.nonce
            && tx.sender_address.value.value == self.sender_address && tx.class_hash.value
            == self.spec_class_hash_or_zero()
    }

    /// The deployment request was projected from this record.
    pub open spec fn deploy_account_matches(self, tx: DeployAccountTransaction) -> bool {
        tx.transaction_hash.value == self.hash && tx.max_fee == (Fee(2)) && tx.version.value
            == self.version && tx.signature@.len() == self.signature@.len() && (forall|i: int|
            0 <= i < self.signature@.len() ==> (#[trigger] tx.signature@[i]).value
                == self.signature@[i]) && tx.nonce.value == self.nonce
            && tx.contract_address.value.value == self.sender_address && tx.class_hash.value
            == self.spec_class_hash_or_zero() && tx.constructor_calldata@.len()
            == self.call_entrypoint.calldata@.len() && (forall|i: int|
            0 <= i < self.call_entrypoint.calldata@.len() ==> (#[trigger] tx
                .constructor_calldata@[i]).value == self.call_entrypoint.calldata@[i])
            && tx.contract_address_salt.value.val() == 0
    }

    /// The prepared dispatch matches this record under the given kind: the
    /// request variant is the kind's, the request was projected from this
    /// record, and the context was built from that request.
    pub open spec fn prepared_matches(self, tx_type: TxType, p: PreparedExecution) -> bool {
        match (tx_type, p.request) {
            (TxType::InvokeTx, Request::Invoke(tx)) => self.invoke_matches(tx)
                && invoke_context_matches(tx, p.context),
            (TxType::L1HandlerTx, Request::L1Handler(tx)) => self.l1_handler_matches(tx)
                && l1_handler_context_matches(tx, p.context),
            (TxType::DeclareTx, Request::Declare(tx)) => self.declare_matches(tx)
                && declare_context_matches(tx, p.context),
            (TxType::DeployAccountTx, Request::DeployAccount(tx)) => self.deploy_account_matches(
                tx,
            ) && deploy_account_context_matches(tx, p.context),
            _ => false,
        }
    }

    /// Creates a new instance of a transaction.
    pub fn new(
        version: Word256,
        hash: Word256,
        signature: BoundedVec<Word256>,
        events: BoundedVec<EventWrapper>,
        sender_address: ContractAddressWrapper,
        nonce: Word256,
        call_entrypoint: CallEntryPointWrapper,
        contract_class: Option<ContractClassWrapper>,
    ) -> (r: Transaction)
        ensures
            r.version == version,
            r.hash == hash,
            r.signature@ == signature@,
            r.events@ == events@,
            r.sender_address == sender_address,
            r.nonce == nonce,
            r.call_entrypoint == call_entrypoint,
            r.contract_class == contract_class,
    {
        Transaction {
            version,
            hash,
            signature,
            events,
            sender_address,
            nonce,
            call_entrypoint,
            contract_class,
        }
    }

    /// Creates a new instance of a transaction without signature: the
    /// default record with the given hash.
    pub fn from_tx_hash(hash: Word256) -> (r: Transaction)
        ensures
            r.hash == hash,
            r.version.val() == 0,
            r.nonce.val() == 0,
            r.sender_address.val() == 1,
            r.signature@.len() == 2,
            forall|i: int| 0 <= i < 2 ==> (#[trigger] r.signature@[i]).val() == 1,
            r.events@.len() == 2,
            r.call_entrypoint.entrypoint_selector is None,
            r.call_entrypoint.calldata@.len() == 0,
            r.call_entrypoint.class_hash is None,
            r.contract_class is None,
            r.wf(),
    {
        let mut r = Transaction::default();
        r.hash = hash;
        r
    }

    /// Converts the sender field into the engine's address domain; fails
    /// exactly when it does not fit.
    fn sender_to_address(&self) -> (r: Result<StarkContractAddress, StarknetApiError>)
        ensures
            r is Ok <==> self.sender_ok(),
            r is Ok ==> r->Ok_0.value.value == self.sender_address,
            r is Err ==> r->Err_0 == StarknetApiError::OutOfRange,
    {
        match StarkFelt::new(self.sender_address) {
            Ok(f) => StarkContractAddress::new(f),
            Err(e) => Err(e),
        }
    }

    /// The recorded selector, or zero where none was recorded.
    fn selector_or_zero(&self) -> (r: Word256)
        ensures
            r == self.spec_selector_or_zero(),
    {
        match self.call_entrypoint.entrypoint_selector {
            Some(w) => w,
            None => Word256::zero(),
        }
    }

    /// The recorded class hash, or zero where none was recorded.
    fn class_hash_or_zero(&self) -> (r: Word256)
        ensures
            r == self.spec_class_hash_or_zero(),
    {
        match self.call_entrypoint.class_hash {
            Some(w) => w,
            None => Word256::zero(),
        }
    }

    /// Projects the record into an invoke request.  Succeeds exactly when
    /// every field read is in the engine's domain, preserving hash, version,
    /// nonce, sender, signature and call data in value; the fee is the
    /// fixed placeholder and no explicit selector is carried.
    pub fn try_into_invoke(&self) -> (r: Result<InvokeTransaction, StarknetApiError>)
        ensures
            r is Ok <==> self.invoke_fields_ok(),
            r is Ok ==> self.invoke_matches(r->Ok_0),
            r is Err ==> r->Err_0 == StarknetApiError::OutOfRange,
    {
        let transaction_hash = match StarkFelt::new(self.hash) {
            Ok(f) => f,
            Err(e) => {
                return Err(e);
            },
        };
        let version = match StarkFelt::new(self.version) {
            Ok(f) => f,
            Err(e) => {
                return Err(e);
            },
        };
        let signature = match words_to_felts(self.signature.as_vec()) {
            Ok(s) => s,
            Err(e) => {
                return Err(e);
            },
        };
        let nonce = match StarkFelt::new(self.nonce) {
            Ok(f) => f,
            Err(e) => {
                return Err(e);
            },
        };
        let sender_address = match self.sender_to_address() {
            Ok(a) => a,
            Err(e) => {
                return Err(e);
            },
        };
        let calldata = match words_to_felts(self.call_entrypoint.calldata.as_vec()) {
            Ok(c) => c,
            Err(e) => {
                return Err(e);
            },
        };
        Ok(
            InvokeTransaction {
                transaction_hash,
                max_fee: Fee(2),
                version,
                signature,
                nonce,
                sender_address,
                calldata,
                entry_point_selector: None,
            },
        )
    }

    /// Projects the record into a settlement-layer request.  Succeeds
    /// exactly when every field read is in the engine's domain; the
    /// selector falls back to zero where none was recorded.
    pub fn try_into_l1_handler(&self) -> (r: Result<L1HandlerTransaction, StarknetApiError>)
        ensures
            r is Ok <==> self.l1_handler_fields_ok(),
            r is Ok ==> self.l1_handler_matches(r->Ok_0),
            r is Err ==> r->Err_0 == StarknetApiError::OutOfRange,
    {
        let transaction_hash = match StarkFelt::new(self.hash) {
            Ok(f) => f,
            Err(e) => {
                return Err(e);
            },
        };
        let version = match StarkFelt::new(self.version) {
            Ok(f) => f,
            Err(e) => {
                return Err(e);
            },
        };
        let nonce = match StarkFelt::new(self.nonce) {
            Ok(f) => f,
            Err(e) => {
                return Err(e);
            },
        };
        let contract_address = match self.sender_to_address() {
            Ok(a) => a,
            Err(e) => {
                return Err(e);
            },
        };
        let calldata = match words_to_felts(self.call_entrypoint.calldata.as_vec()) {
            Ok(c) => c,
            Err(e) => {
                return Err(e);
            },
        };
        let entry_point_selector = match StarkFelt::new(self.selector_or_zero()) {
            Ok(f) => f,
            Err(e) => {
                return Err(e);
            },
        };
        Ok(
            L1HandlerTransaction {
                transaction_hash,
                version,
                nonce,
                contract_address,
                calldata,
                entry_point_selector,
            },
        )
    }

    /// Projects the record into a class-declaration request.  Succeeds
    /// exactly when every field read is in the engine's domain; the class
    /// hash falls back to zero where none was recorded.
    pub fn try_into_declare(&self) -> (r: Result<DeclareTransaction, StarknetApiError>)
        ensures
            r is Ok <==> self.declare_fields_ok(),
            r is Ok ==> self.declare_matches(r->Ok_0),
            r is Err ==> r->Err_0 == StarknetApiError::OutOfRange,
    {
        let transaction_hash = match StarkFelt::new(self.hash) {
            Ok(f) => f,
            Err(e) => {
                return Err(e);
            },
        };
        let version = match StarkFelt::new(self.version) {
            Ok(f) => f,
            Err(e) => {
                return Err(e);
            },
        };
        let signature = match words_to_felts(self.signature.as_vec()) {
            Ok(s) => s,
            Err(e) => {
                return Err(e);
            },
        };
        let nonce = match StarkFelt::new(self.nonce) {
            Ok(f) => f,
            Err(e) => {
                return Err(e);
            },
        };
        let sender_address = match self.sender_to_address() {
            Ok(a) => a,
            Err(e) => {
                return Err(e);
            },
        };
        let class_hash = match StarkFelt::new(self.class_hash_or_zero()) {
            Ok(f) => f,
            Err(e) => {
                return Err(e);
            },
        };
        Ok(
            DeclareTransaction {
                transaction_hash,
                max_fee: Fee(2),
                version,
                signature,
                nonce,
                sender_address,
                class_hash,
            },
        )
    }

    /// Projects the record into an account-deployment request.  Succeeds
    /// exactly when every field read is in the engine's domain; the sender
    /// field stands as the deployed address, the constructor call data is
    /// the entry-point call data, and the salt is the fixed zero
    /// placeholder.
    pub fn try_into_deploy_account(&self) -> (r: Result<
        DeployAccountTransaction,
        StarknetApiError,
    >)
        ensures
            r is Ok <==> self.deploy_account_fields_ok(),
            r is Ok ==> self.deploy_account_matches(r->Ok_0),
            r is Err ==> r->Err_0 == StarknetApiError::OutOfRange,
    {
        let transaction_hash = match StarkFelt::new(self.hash) {
            Ok(f) => f,
            Err(e) => {
                return Err(e);
            },
        };
        let version = match StarkFelt::new(self.version) {
            Ok(f) => f,
            Err(e) => {
                return Err(e);
            },
        };
        let signature = match words_to_felts(self.signature.as_vec()) {
            Ok(s) => s,
            Err(e) => {
                return Err(e);
            },
        };
        let nonce = match StarkFelt::new(self.nonce) {
            Ok(f) => f,
            Err(e) => {
                return Err(e);
            },
        };
        let contract_address = match self.sender_to_address() {
            Ok(a) => a,
            Err(e) => {
                return Err(e);
            },
        };
        let class_hash = match StarkFelt::new(self.class_hash_or_zero()) {
            Ok(f) => f,
            Err(e) => {
                return Err(e);
            },
        };
        let constructor_calldata = match words_to_felts(self.call_entrypoint.calldata.as_vec()) {
            Ok(c) => c,
            Err(e) => {
                return Err(e);
            },
        };
        Ok(
            DeployAccountTransaction {
                transaction_hash,
                max_fee: Fee(2),
                version,
                signature,
                nonce,
                contract_address,
                class_hash,
                constructor_calldata,
                contract_address_salt: StarkFelt::zero(),
            },
        )
    }

    /// Get the transaction context for an invoke transaction: every field
    /// of the request carried over.
    pub fn get_invoke_transaction_context(&self, tx: &InvokeTransaction) -> (c:
        AccountTransactionContext)
        ensures
            invoke_context_matches(*tx, c),
    {
        AccountTransactionContext {
            transaction_hash: tx.transaction_hash,
            max_fee: tx.max_fee,
            version: tx.version,
            signature: clone_felts(&tx.signature),
            nonce: tx.nonce,
            sender_address: tx.sender_address,
        }
    }

    /// Get the transaction context for a settlement-layer transaction: no
    /// fee and an empty signature, since the protocol defines neither for
    /// this kind.
    pub fn get_l1_handler_transaction_context(&self, tx: &L1HandlerTransaction) -> (c:
        AccountTransactionContext)
        ensures
            l1_handler_context_matches(*tx, c),
    {
        let signature: Vec<StarkFelt> = Vec::new();
        AccountTransactionContext {
            transaction_hash: tx.transaction_hash,
            max_fee: Fee(0),
            version: tx.version,
            signature,
            nonce: tx.nonce,
            sender_address: tx.contract_address,
        }
    }

    /// Get the transaction context for a declare transaction: every field
    /// of the request carried over.
    pub fn get_declare_transaction_context(&self, tx: &DeclareTransaction) -> (c:
        AccountTransactionContext)
        ensures
            declare_context_matches(*tx, c),
    {
        AccountTransactionContext {
            transaction_hash: tx.transaction_hash,
            max_fee: tx.max_fee,
            version: tx.version,
            signature: clone_felts(&tx.signature),
            nonce: tx.nonce,
            sender_address: tx.sender_address,
        }
    }

    /// Get the transaction context for a deploy account transaction: the
    /// deployed address stands as the charged account.
    pub fn get_deploy_account_transaction_context(&self, tx: &DeployAccountTransaction) -> (c:
        AccountTransactionContext)
        ensures
            deploy_account_context_matches(*tx, c),
    {
        AccountTransactionContext {
            transaction_hash: tx.transaction_hash,
            max_fee: tx.max_fee,
            version: tx.version,
            signature: clone_felts(&tx.signature),
            nonce: tx.nonce,
            sender_address: tx.contract_address,
        }
    }

    /// Dispatches the record under the given kind, up to the engine call:
    /// projects it into the kind-specific request, builds the execution
    /// context from the projected request, and applies the kind's
    /// precondition.  Succeeds exactly when every field the kind reads is
    /// in the engine's domain, handing back the prepared request and
    /// context; the caller runs the engine on them and folds its answer
    /// with [`wrap_engine_outcome`].  Any failure here surfaces the
    /// field-validation error, and the engine must not be invoked.
    pub fn execute(&self, tx_type: TxType) -> (r: Result<
        PreparedExecution,
        TransactionExecutionErrorWrapper,
    >)
        ensures
            r is Ok <==> self.fields_ok_for(tx_type),
            r is Ok ==> self.prepared_matches(tx_type, r->Ok_0),
            r is Err ==> r->Err_0 == TransactionExecutionErrorWrapper::StarknetApi(
                StarknetApiError::OutOfRange,
            ),
    {
        match tx_type {
            TxType::InvokeTx => {
                let tx = match self.try_into_invoke() {
                    Ok(t) => t,
                    Err(e) => {
                        return Err(TransactionExecutionErrorWrapper::StarknetApi(e));
                    },
                };
                // Specifying an entry point selector is not allowed; the
                // account's executor is called, and the inner selector
                // appears in the calldata.
                if let Err(e) = tx.check_no_entry_point_selector() {
                    return Err(e);
                }
                let context = self.get_invoke_transaction_context(&tx);
                Ok(PreparedExecution { request: Request::Invoke(tx), context })
            },
            TxType::L1HandlerTx => {
                let tx = match self.try_into_l1_handler() {
                    Ok(t) => t,
                    Err(e) => {
                        return Err(TransactionExecutionErrorWrapper::StarknetApi(e));
                    },
                };
                let context = self.get_l1_handler_transaction_context(&tx);
                Ok(PreparedExecution { request: Request::L1Handler(tx), context })
            },
            TxType::DeclareTx => {
                let tx = match self.try_into_declare() {
                    Ok(t) => t,
                    Err(e) => {
                        return Err(TransactionExecutionErrorWrapper::StarknetApi(e));
                    },
                };
                let context = self.get_declare_transaction_context(&tx);
                Ok(PreparedExecution { request: Request::Declare(tx), context })
            },
            TxType::DeployAccountTx => {
                let tx = match self.try_into_deploy_account() {
                    Ok(t) => t,
                    Err(e) => {
                        return Err(TransactionExecutionErrorWrapper::StarknetApi(e));
                    },
                };
                let context = self.get_deploy_account_transaction_context(&tx);
                Ok(PreparedExecution { request: Request::DeployAccount(tx), context })
            },
        }
    }
}

impl Default for Transaction {
    /// The deterministic default record: version and nonce zero, hash one,
    /// two one-valued signature elements, two default events, the sentinel
    /// sender, an empty entry point, no class.
    fn default() -> (r: Transaction)
        ensures
            r.version.val() == 0,
            r.hash.val() == 1,
            r.signature@.len() == 2,
            forall|i: int| 0 <= i < 2 ==> (#[trigger] r.signature@[i]).val() == 1,
            r.events@.len() == 2,
            r.nonce.val() == 0,
            r.sender_address.val() == 1,
            r.call_entrypoint.entrypoint_selector is None,
            r.call_entrypoint.calldata@.len() == 0,
            r.call_entrypoint.class_hash is None,
            r.contract_class is None,
            r.wf(),
    {
        let one = sentinel_address();
        let mut signature: Vec<Word256> = Vec::new();
        signature.push(one);
        signature.push(one);
        let mut events: Vec<EventWrapper> = Vec::new();
        events.push(EventWrapper::default());
        events.push(EventWrapper::default());
        Transaction {
            version: Word256::zero(),
            hash: one,
            signature: BoundedVec::from_vec(signature),
            events: BoundedVec::from_vec(events),
            sender_address: one,
            nonce: Word256::zero(),
            call_entrypoint: CallEntryPointWrapper::default(),
            contract_class: None,
        }
    }
}

impl InvokeTransaction {
    /// The protocol rule of invoke dispatch: the request must not carry an
    /// explicit entry-point selector; selection routes through the call
    /// data.  Fails with the distinct precondition error exactly when a
    /// selector is present, before any engine involvement.
    pub fn check_no_entry_point_selector(&self) -> (r: Result<
        (),
        TransactionExecutionErrorWrapper,
    >)
        ensures
            r is Ok <==> self.entry_point_selector is None,
            r is Err ==> r->Err_0 == TransactionExecutionErrorWrapper::SpecifiedEntryPoint,
    {
        if self.entry_point_selector.is_some() {
            Err(TransactionExecutionErrorWrapper::SpecifiedEntryPoint)
        } else {
            Ok(())
        }
    }
}

/// Every execution kind validates the shared core of the record: wherever a
/// projection of any kind succeeds, hash, version, nonce and sender were all
/// within the engine's domains.
pub proof fn lemma_fields_ok_needs_core(t: Transaction, tx_type: TxType)
    ensures
        t.fields_ok_for(tx_type) ==> t.core_fields_ok(),
{
}

/// An invoke dispatch that reaches the engine never carries an explicit
/// entry-point selector: selection routes entirely through the call data.
pub proof fn lemma_prepared_invoke_has_no_selector(t: Transaction, p: PreparedExecution)
    requires
        t.prepared_matches(TxType::InvokeTx, p),
    ensures
        p.request is Invoke,
        p.request->Invoke_0.entry_point_selector is None,
{
}

/// Folds the engine's answer into the uniform dispatch result: a trace (or
/// its absence) passes through unchanged, an engine failure is wrapped as
/// the engine-execution error kind, also unchanged.
pub fn wrap_engine_outcome<T>(outcome: Result<Option<T>, EngineExecutionError>) -> (r:
    TransactionExecutionResultWrapper<Option<T>>)
    ensures
        outcome is Ok ==> r is Ok && r->Ok_0 == outcome->Ok_0,
        outcome is Err ==> r is Err && r->Err_0
            == TransactionExecutionErrorWrapper::TransactionExecution(outcome->Err_0),
{
    match outcome {
        Ok(t) => Ok(t),
        Err(e) => Err(TransactionExecutionErrorWrapper::TransactionExecution(e)),
    }
}

} // verus!
