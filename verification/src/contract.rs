//! What is declared of the shared structures and calls, and what is held of
//! the declarations before anything is built from them.
//!
//! Values travel by position, not by name. So two descriptions of one
//! structure agree exactly when they have the same number of fields and the
//! same kind of field at every position.

use vstd::prelude::*;
use vstd::string::*;

verus! {

/// The structures that are declared.
#[derive(Clone, Copy, Debug, PartialEq, Eq, Structural)]
pub enum ContractType {
    DemoUser,
    DemoComplicatedRequest,
    DemoResponse,
}

/// What a field holds.
#[derive(Clone, Copy, Debug, PartialEq, Eq, Structural)]
pub enum FieldKind {
    /// True or false.
    Flag,
    /// One byte as a number.
    Byte,
    /// A text.
    Text,
    /// Bytes, as many as their length says.
    Bytes,
    /// Structures of one declared type, in order.
    Structs { of: ContractType },
}

/// One field of a structure.
#[derive(Clone, Debug, PartialEq, Eq)]
pub struct ContractField {
    pub name: String,
    pub kind: FieldKind,
}

/// The description of a structure: its name and its fields, in order.
#[derive(Clone, Debug, PartialEq, Eq)]
pub struct ContractStruct {
    pub name: String,
    pub fields: Vec<ContractField>,
}

/// A [`ContractStruct`] as plain values.
pub ghost struct ContractStructView {
    pub name: Seq<char>,
    pub fields: Seq<(Seq<char>, FieldKind)>,
}

impl View for ContractField {
    type V = (Seq<char>, FieldKind);

    open spec fn view(&self) -> (Seq<char>, FieldKind) {
        (self.name@, self.kind)
    }
}

impl View for ContractStruct {
    type V = ContractStructView;

    open spec fn view(&self) -> ContractStructView {
        ContractStructView {
            name: self.name@,
            fields: Seq::new(self.fields@.len(), |i: int| self.fields@[i]@),
        }
    }
}

impl ContractStructView {
    /// The kinds of the fields, in order: all that matters on the wire.
    pub open spec fn spec_kinds(self) -> Seq<FieldKind> {
        Seq::new(self.fields.len(), |i: int| self.fields[i].1)
    }
}

/// How two descriptions of one structure differ.
#[derive(Clone, Copy, Debug, PartialEq, Eq, Structural)]
pub enum ShapeMismatch {
    /// They have different numbers of fields.
    FieldCount { left: usize, right: usize },
    /// They have fields of different kinds at `index`, and at no earlier
    /// position.
    FieldKind { index: usize },
}

/// What comparing two sequences of kinds gives: nothing to object to where
/// they are equal, else the difference in number, else the first position
/// at which they differ.
pub open spec fn spec_compare_kinds(left: Seq<FieldKind>, right: Seq<FieldKind>, verdict: Result<
    (),
    ShapeMismatch,
>) -> bool {
    match verdict {
        Ok(()) => left == right,
        Err(ShapeMismatch::FieldCount { left: l, right: r }) => {
            &&& l == left.len()
            &&& r == right.len()
            &&& l != r
        },
        Err(ShapeMismatch::FieldKind { index }) => {
            &&& left.len() == right.len()
            &&& index < left.len()
            &&& left[index as int] != right[index as int]
            &&& forall|k: int| 0 <= k < index ==> left[k] == right[k]
        },
    }
}

/// Compares two descriptions of one structure, as the two sides hold them.
/// A difference is found here, before anything is built.
pub fn check_shapes(left: &ContractStruct, right: &ContractStruct) -> (verdict: Result<
    (),
    ShapeMismatch,
>)
    ensures
        spec_compare_kinds(left@.spec_kinds(), right@.spec_kinds(), verdict),
{
    let ghost l = left@.spec_kinds();
    let ghost r = right@.spec_kinds();
    if left.fields.len() != right.fields.len() {
        return Err(
            ShapeMismatch::FieldCount { left: left.fields.len(), right: right.fields.len() },
        );
    }
    let mut i: usize = 0;
    while i < left.fields.len()
        invariant
            i <= left.fields@.len(),
            left.fields@.len() == right.fields@.len(),
            l == left@.spec_kinds(),
            r == right@.spec_kinds(),
            forall|k: int| 0 <= k < i ==> l[k] == r[k],
        decreases left.fields@.len() - i,
    {
        if left.fields[i].kind != right.fields[i].kind {
            return Err(ShapeMismatch::FieldKind { index: i });
        }
        i += 1;
    }
    assert(l =~= r);
    Ok(())
}

/// Of two sequences of kinds exactly one verdict holds.
pub proof fn lemma_verdict_is_unique(
    left: Seq<FieldKind>,
    right: Seq<FieldKind>,
    first: Result<(), ShapeMismatch>,
    second: Result<(), ShapeMismatch>,
)
    requires
        spec_compare_kinds(left, right, first),
        spec_compare_kinds(left, right, second),
    ensures
        first == second,
{
    match (first, second) {
        (
            Err(ShapeMismatch::FieldKind { index: i }),
            Err(ShapeMismatch::FieldKind { index: j }),
        ) => {
            if i < j {
                assert(left[i as int] == right[i as int]);
            } else if j < i {
                assert(left[j as int] == right[j as int]);
            }
        },
        (Ok(()), Err(ShapeMismatch::FieldKind { index })) => {
            assert(left[index as int] == right[index as int]);
        },
        (Err(ShapeMismatch::FieldKind { index }), Ok(())) => {
            assert(left[index as int] == right[index as int]);
        },
        (Ok(_), Ok(_)) => {
            assert(first->Ok_0 == second->Ok_0);
        },
        _ => {},
    }
}

fn field(name: &str, kind: FieldKind) -> (declared: ContractField)
    ensures
        declared@ == (name@, kind),
{
    ContractField { name: String::from_str(name), kind }
}

/// The fields of each declared structure, in order.
pub open spec fn spec_declared_fields(declared: ContractType) -> Seq<(Seq<char>, FieldKind)> {
    match declared {
        ContractType::DemoUser => seq![("name"@, FieldKind::Text), ("age"@, FieldKind::Byte)],
        ContractType::DemoComplicatedRequest => seq![
            ("users"@, FieldKind::Structs { of: ContractType::DemoUser }),
            ("balabala"@, FieldKind::Bytes),
        ],
        ContractType::DemoResponse => seq![("pass"@, FieldKind::Flag)],
    }
}

impl ContractType {
    /// The name of the structure.
    pub open spec fn spec_name(self) -> Seq<char> {
        match self {
            ContractType::DemoUser => "DemoUser"@,
            ContractType::DemoComplicatedRequest => "DemoComplicatedRequest"@,
            ContractType::DemoResponse => "DemoResponse"@,
        }
    }

    /// The name of the structure.
    pub fn name(self) -> (name: &'static str)
        ensures
            name@ == self.spec_name(),
    {
        match self {
            ContractType::DemoUser => "DemoUser",
            ContractType::DemoComplicatedRequest => "DemoComplicatedRequest",
            ContractType::DemoResponse => "DemoResponse",
        }
    }

    /// The description of the structure.
    pub fn declaration(self) -> (declared: ContractStruct)
        ensures
            declared@ == (ContractStructView {
                name: self.spec_name(),
                fields: spec_declared_fields(self),
            }),
    {
        let mut fields: Vec<ContractField> = Vec::new();
        match self {
            ContractType::DemoUser => {
                fields.push(field("name", FieldKind::Text));
                fields.push(field("age", FieldKind::Byte));
            },
            ContractType::DemoComplicatedRequest => {
                fields.push(field("users", FieldKind::Structs { of: ContractType::DemoUser }));
                fields.push(field("balabala", FieldKind::Bytes));
            },
            ContractType::DemoResponse => {
                fields.push(field("pass", FieldKind::Flag));
            },
        }
        let declared = ContractStruct { name: String::from_str(self.name()), fields };
        assert(declared@.fields =~= spec_declared_fields(self));
        declared
    }
}

/// How a call proceeds for the side that makes it.
#[derive(Clone, Copy, Debug, PartialEq, Eq, Structural)]
pub enum CallMode {
    /// Made and left: nothing comes back, and nothing is waited for.
    Oneway,
    /// Made and waited for until the answer is there.
    Synchronous,
    /// Made for an answer that comes later.
    Asynchronous,
}

/// What holds of a deferred answer where nobody is left to take it.
#[derive(Clone, Copy, Debug, PartialEq, Eq, Structural)]
pub enum DropSafety {
    /// The side that called stays until the answer is there.
    Standard,
    /// The answer stays valid, and is dropped unseen, where the side that
    /// called has gone.
    DropSafeReturn,
}

/// The declaration of a call.
#[derive(Clone, Debug, PartialEq, Eq)]
pub struct RemoteCallContract {
    pub name: String,
    pub request_type: ContractType,
    pub response_type: Option<ContractType>,
    pub mode: CallMode,
    pub drop_safety: DropSafety,
}

/// A [`RemoteCallContract`] as plain values.
pub ghost struct RemoteCallContractView {
    pub name: Seq<char>,
    pub request_type: ContractType,
    pub response_type: Option<ContractType>,
    pub mode: CallMode,
    pub drop_safety: DropSafety,
}

impl View for RemoteCallContract {
    type V = RemoteCallContractView;

    open spec fn view(&self) -> RemoteCallContractView {
        RemoteCallContractView {
            name: self.name@,
            request_type: self.request_type,
            response_type: self.response_type,
            mode: self.mode,
            drop_safety: self.drop_safety,
        }
    }
}

/// What is wrong with the declaration of a call.
#[derive(Clone, Copy, Debug, PartialEq, Eq, Structural)]
pub enum ContractError {
    /// A call that is made and left declares an answer.
    OnewayWithResponse,
    /// A call whose answer is taken declares none.
    MissingResponse,
}

impl RemoteCallContractView {
    /// What validating the declaration gives: a call that is made and left
    /// has no answer, and every other call has one.
    pub open spec fn spec_validate(self) -> Result<(), ContractError> {
        if self.mode == CallMode::Oneway {
            if self.response_type is Some {
                Err(ContractError::OnewayWithResponse)
            } else {
                Ok(())
            }
        } else if self.response_type is None {
            Err(ContractError::MissingResponse)
        } else {
            Ok(())
        }
    }
}

impl RemoteCallContract {
    /// Validates the declaration.
    pub fn validate(&self) -> (verdict: Result<(), ContractError>)
        ensures
            verdict == self@.spec_validate(),
    {
        match self.mode {
            CallMode::Oneway => match self.response_type {
                Some(_) => Err(ContractError::OnewayWithResponse),
                None => Ok(()),
            },
            _ => match self.response_type {
                Some(_) => Ok(()),
                None => Err(ContractError::MissingResponse),
            },
        }
    }
}

/// The calls that are declared.
#[derive(Clone, Copy, Debug, PartialEq, Eq, Structural)]
pub enum DemoCallId {
    DemoOneway,
    DemoCheck,
    DemoCheckAsync,
    DemoCheckAsyncSafe,
}

impl DemoCallId {
    /// The declaration of the call.
    pub open spec fn spec_contract(self) -> RemoteCallContractView {
        match self {
            DemoCallId::DemoOneway => RemoteCallContractView {
                name: "demo_oneway"@,
                request_type: ContractType::DemoUser,
                response_type: None,
                mode: CallMode::Oneway,
                drop_safety: DropSafety::Standard,
            },
            DemoCallId::DemoCheck => RemoteCallContractView {
                name: "demo_check"@,
                request_type: ContractType::DemoComplicatedRequest,
                response_type: Some(ContractType::DemoResponse),
                mode: CallMode::Synchronous,
                drop_safety: DropSafety::Standard,
            },
            DemoCallId::DemoCheckAsync => RemoteCallContractView {
                name: "demo_check_async"@,
                request_type: ContractType::DemoComplicatedRequest,
                response_type: Some(ContractType::DemoResponse),
                mode: CallMode::Asynchronous,
                drop_safety: DropSafety::Standard,
            },
            DemoCallId::DemoCheckAsyncSafe => RemoteCallContractView {
                name: "demo_check_async_safe"@,
                request_type: ContractType::DemoComplicatedRequest,
                response_type: Some(ContractType::DemoResponse),
                mode: CallMode::Asynchronous,
                drop_safety: DropSafety::DropSafeReturn,
            },
        }
    }

    /// The declaration of the call.
    pub fn contract(self) -> (declared: RemoteCallContract)
        ensures
            declared@ == self.spec_contract(),
    {
        match self {
            DemoCallId::DemoOneway => RemoteCallContract {
                name: String::from_str("demo_oneway"),
                request_type: ContractType::DemoUser,
                response_type: None,
                mode: CallMode::Oneway,
                drop_safety: DropSafety::Standard,
            },
            DemoCallId::DemoCheck => RemoteCallContract {
                name: String::from_str("demo_check"),
                request_type: ContractType::DemoComplicatedRequest,
                response_type: Some(ContractType::DemoResponse),
                mode: CallMode::Synchronous,
                drop_safety: DropSafety::Standard,
            },
            DemoCallId::DemoCheckAsync => RemoteCallContract {
                name: String::from_str("demo_check_async"),
                request_type: ContractType::DemoComplicatedRequest,
                response_type: Some(ContractType::DemoResponse),
                mode: CallMode::Asynchronous,
                drop_safety: DropSafety::Standard,
            },
            DemoCallId::DemoCheckAsyncSafe => RemoteCallContract {
                name: String::from_str("demo_check_async_safe"),
                request_type: ContractType::DemoComplicatedRequest,
                response_type: Some(ContractType::DemoResponse),
                mode: CallMode::Asynchronous,
                drop_safety: DropSafety::DropSafeReturn,
            },
        }
    }
}

/// Every declared call is valid.
pub proof fn lemma_declared_calls_are_valid(call: DemoCallId)
    ensures
        call.spec_contract().spec_validate() is Ok,
{
}

} // verus!
