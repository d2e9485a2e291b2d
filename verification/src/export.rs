//! The entry points published to the managed host.
//!
//! The host finds an entry point by its name alone, so the name follows a
//! fixed template. What an entry point hands back is a raw handle of the
//! host; where the host could not make the value, the handle is null.

use vstd::prelude::*;
use vstd::string::*;

verus! {

/// The package of the host class that declares the entry points.
pub const HOST_PACKAGE: &'static str = "jni";

/// The host class that declares the entry points.
pub const HOST_CLASS: &'static str = "OONIProbeEngineJNI";

/// The handle that tells the host that no value could be made.
pub const NULL_HANDLE: usize = 0;

/// The length of a key in bytes.
pub const KEY_LENGTH: usize = 32;

/// What a value that crosses to the host looks like there.
#[derive(Clone, Copy, Debug, PartialEq, Eq, Structural)]
pub enum ValueShape {
    /// A string of the host.
    Text,
    /// A byte array of the host.
    Bytes,
}

/// Who releases a value that was handed to the host.
#[derive(Clone, Copy, Debug, PartialEq, Eq, Structural)]
pub enum Ownership {
    /// The value is the host's from the moment it is returned.
    CallerOwned,
    /// The value stays with the side that made it.
    Borrowed,
}

/// A side of the boundary.
#[derive(Clone, Copy, Debug, PartialEq, Eq, Structural)]
pub enum Side {
    /// The managed host that calls in.
    Host,
    /// The native code that publishes the entry point.
    Exporter,
}

impl Ownership {
    /// The one side that releases a value of this ownership.
    pub open spec fn spec_released_by(self) -> Side {
        match self {
            Ownership::CallerOwned => Side::Host,
            Ownership::Borrowed => Side::Exporter,
        }
    }

    /// The one side that releases a value of this ownership. The other side
    /// neither frees the value nor uses it again.
    pub fn released_by(self) -> (side: Side)
        ensures
            side == self.spec_released_by(),
    {
        match self {
            Ownership::CallerOwned => Side::Host,
            Ownership::Borrowed => Side::Exporter,
        }
    }
}

/// The name under which the host looks for `method` of `class` in `package`.
pub open spec fn spec_native_symbol_name(
    package: Seq<char>,
    class: Seq<char>,
    method: Seq<char>,
) -> Seq<char> {
    "Java_"@ + package + "_"@ + class + "_"@ + method
}

/// Computes the name under which the host looks for `method` of `class` in
/// `package`.
pub fn native_symbol_name(package: &str, class: &str, method: &str) -> (name: String)
    ensures
        name@ == spec_native_symbol_name(package@, class@, method@),
{
    let mut name = String::from_str("Java_");
    name.append(package);
    name.append("_");
    name.append(class);
    name.append("_");
    name.append(method);
    name
}

/// One published entry point.
#[derive(Clone, Debug, PartialEq, Eq)]
pub struct ExportedSymbol {
    /// The name the host looks for.
    pub native_symbol_name: String,
    /// What the host passes, beside its environment and the class.
    pub parameter_shapes: Vec<ValueShape>,
    /// What the host gets back.
    pub return_shape: ValueShape,
    /// Who releases what the host gets back.
    pub ownership_of_return: Ownership,
}

/// An [`ExportedSymbol`] as plain values.
pub ghost struct ExportedSymbolView {
    pub native_symbol_name: Seq<char>,
    pub parameter_shapes: Seq<ValueShape>,
    pub return_shape: ValueShape,
    pub ownership_of_return: Ownership,
}

impl View for ExportedSymbol {
    type V = ExportedSymbolView;

    open spec fn view(&self) -> ExportedSymbolView {
        ExportedSymbolView {
            native_symbol_name: self.native_symbol_name@,
            parameter_shapes: self.parameter_shapes@,
            return_shape: self.return_shape,
            ownership_of_return: self.ownership_of_return,
        }
    }
}

/// The entry point for `method` of the host class, which takes nothing and
/// returns a value of shape `return_shape` that is the host's to release.
pub open spec fn spec_host_entry(method: Seq<char>, return_shape: ValueShape) -> ExportedSymbolView {
    ExportedSymbolView {
        native_symbol_name: spec_native_symbol_name(HOST_PACKAGE@, HOST_CLASS@, method),
        parameter_shapes: Seq::empty(),
        return_shape,
        ownership_of_return: Ownership::CallerOwned,
    }
}

impl ExportedSymbol {
    /// Declares the entry point for `method` of `class` in `package`.
    pub fn declare(
        package: &str,
        class: &str,
        method: &str,
        parameter_shapes: Vec<ValueShape>,
        return_shape: ValueShape,
        ownership_of_return: Ownership,
    ) -> (symbol: ExportedSymbol)
        ensures
            symbol@ == (ExportedSymbolView {
                native_symbol_name: spec_native_symbol_name(package@, class@, method@),
                parameter_shapes: parameter_shapes@,
                return_shape,
                ownership_of_return,
            }),
    {
        ExportedSymbol {
            native_symbol_name: native_symbol_name(package, class, method),
            parameter_shapes,
            return_shape,
            ownership_of_return,
        }
    }
}

/// The entry points that are published: the two demonstration calls, each
/// of which takes nothing and returns a string that the host owns.
pub fn exported_symbols() -> (symbols: Vec<ExportedSymbol>)
    ensures
        symbols@.len() == 2,
        symbols@[0]@ == spec_host_entry("demoOne"@, ValueShape::Text),
        symbols@[1]@ == spec_host_entry("demoTwo"@, ValueShape::Text),
{
    let mut symbols: Vec<ExportedSymbol> = Vec::new();
    symbols.push(
        ExportedSymbol::declare(
            HOST_PACKAGE,
            HOST_CLASS,
            "demoOne",
            Vec::new(),
            ValueShape::Text,
            Ownership::CallerOwned,
        ),
    );
    symbols.push(
        ExportedSymbol::declare(
            HOST_PACKAGE,
            HOST_CLASS,
            "demoTwo",
            Vec::new(),
            ValueShape::Text,
            Ownership::CallerOwned,
        ),
    );
    symbols
}

/// What the first demonstration call hands to the host.
pub fn demo_one() -> (reply: String)
    ensures
        reply@ == "one"@,
{
    String::from_str("one")
}

/// What the second demonstration call hands to the host.
pub fn demo_two() -> (reply: String)
    ensures
        reply@ == "two"@,
{
    String::from_str("two")
}

/// What became of the host's attempt to make the value that is returned.
#[derive(Clone, Copy, Debug, PartialEq, Eq, Structural)]
pub enum HostAllocation {
    /// The host made the value and named it by this handle.
    Made { handle: usize },
    /// The host could not make or encode the value.
    Failed,
}

/// The handle that an entry point returns for an attempt of the host.
pub open spec fn spec_returned_handle(allocation: HostAllocation) -> usize {
    match allocation {
        HostAllocation::Made { handle } => handle,
        HostAllocation::Failed => NULL_HANDLE,
    }
}

/// Decides what an entry point returns: the handle of the value that the
/// host made, or the null handle where it made none. Nothing else ever
/// crosses the boundary in place of a value.
pub fn returned_handle(allocation: HostAllocation) -> (handle: usize)
    ensures
        handle == spec_returned_handle(allocation),
        allocation is Failed ==> handle == NULL_HANDLE,
{
    match allocation {
        HostAllocation::Made { handle } => handle,
        HostAllocation::Failed => NULL_HANDLE,
    }
}

/// Calls `boringtun::ffi::x25519_secret_key`, which draws a new x25519
/// secret key from the system's source of randomness, and hands out the 32
/// bytes of that key. Nothing is claimed of the bytes.
#[verifier::external_body]
fn fresh_secret_key() -> (key: [u8; 32]) {
    boringtun::ffi::x25519_secret_key().key
}

/// The bytes of `key`, in order, as the buffer that is handed to the host.
pub fn key_payload(key: &[u8; 32]) -> (payload: Vec<u8>)
    ensures
        payload@ == key@,
{
    let mut payload: Vec<u8> = Vec::new();
    let mut i: usize = 0;
    while i < KEY_LENGTH
        invariant
            i <= KEY_LENGTH,
            payload@ == key@.subrange(0, i as int),
        decreases KEY_LENGTH - i,
    {
        payload.push(key[i]);
        assert(payload@ =~= key@.subrange(0, i + 1));
        i += 1;
    }
    assert(key@.subrange(0, KEY_LENGTH as int) =~= key@);
    payload
}

/// Draws a new secret key and returns its bytes for the host. Each call
/// stands alone: nothing is kept from one to the next.
pub fn generate_public_key1() -> (payload: Vec<u8>)
    ensures
        payload@.len() == KEY_LENGTH,
{
    let key = fresh_secret_key();
    key_payload(&key)
}

} // verus!
