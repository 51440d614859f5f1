//! The symbol table of a loaded module, the sessions opened on it, and the
//! five bridge operations.
//!
//! Each operation marshals its arguments into the call to make. The reply to
//! a call is read by the call's own `reply`.

use vstd::prelude::*;
use vstd::string::StringSliceAdditionalSpecFns;
use vstd::utf8::{decode_utf8, valid_utf8};
use crate::error::{Argument, BridgeError, EntryPoint};
use crate::loader::{has_library_suffix, names_library, Loader, ENTRY_POINTS};
use crate::marshal::{encode, first_nul, nul_free, terminated, utf8_lossy};
use crate::schema::{decodes_to, ModuleInfo};

verus! {

/// The five bound entry points of one loaded module, each by its address.
#[derive(Clone, Copy, Debug)]
pub struct Library {
    info: usize,
    open: usize,
    close: usize,
    set: usize,
    get: usize,
}

/// One open conversation with a module: the handle that its open entry point
/// returned.
#[derive(Debug)]
pub struct Session {
    handle: usize,
}

/// The call of a module's info entry point.
#[derive(Debug)]
pub struct InfoCall {
    pub entry: usize,
    pub client_name: Vec<u8>,
}

/// The reply of a module's info entry point whose status was success: the
/// out-buffer is still to be read.
#[derive(Debug)]
pub struct InfoPayload {
    status: i32,
}

/// The call of a module's open entry point.
#[derive(Debug)]
pub struct OpenCall {
    pub entry: usize,
    pub client_name: Vec<u8>,
    pub max_payload_size: u32,
}

/// The call of a module's close entry point.
#[derive(Debug)]
pub struct CloseCall {
    pub entry: usize,
    pub handle: usize,
}

/// The call of a module's set entry point.
#[derive(Debug)]
pub struct SetCall {
    pub entry: usize,
    pub handle: usize,
    pub component: Vec<u8>,
    pub object: Vec<u8>,
    pub payload: Vec<u8>,
    pub size: i32,
}

/// The call of a module's get entry point.
#[derive(Debug)]
pub struct GetCall {
    pub entry: usize,
    pub handle: usize,
    pub component: Vec<u8>,
    pub object: Vec<u8>,
}

/// Status by which a module reports success.
pub const OK: i32 = 0;

impl View for Session {
    type V = usize;

    /// The handle.
    closed spec fn view(&self) -> usize {
        self.handle
    }
}

impl Clone for Session {
    fn clone(&self) -> (r: Session)
        ensures
            r@ == self@,
    {
        proof {
            use_type_invariant(self);
        }
        Session { handle: self.handle }
    }
}

impl Session {
    #[verifier::type_invariant]
    spec fn live(self) -> bool {
        self.handle != 0
    }

    /// The handle. It is never null.
    pub fn handle(&self) -> (h: usize)
        ensures
            h == self@,
            h != 0,
    {
        proof {
            use_type_invariant(self);
        }
        self.handle
    }
}

/// The byte length that a module is handed for a payload: the low 32 bits of
/// the caller's length, read as a signed number in two's complement.
pub open spec fn wire_size(size: usize) -> int {
    let low = size as int % 0x1_0000_0000;
    if low < 0x8000_0000 {
        low
    } else {
        low - 0x1_0000_0000
    }
}

/// Computes the byte length that a module is handed for a payload.
pub fn to_wire_size(size: usize) -> (r: i32)
    ensures
        r == wire_size(size),
        size <= i32::MAX ==> r == size,
{
    let low: u64 = (size as u64) % 0x1_0000_0000;
    if low < 0x8000_0000 {
        low as i32
    } else {
        (low as i64 - 0x1_0000_0000) as i32
    }
}

impl Library {
    #[verifier::type_invariant]
    spec fn bound(self) -> bool {
        &&& self.info != 0
        &&& self.open != 0
        &&& self.close != 0
        &&& self.set != 0
        &&& self.get != 0
    }

    /// The address of an entry point.
    pub closed spec fn address(self, entry: EntryPoint) -> usize {
        match entry {
            EntryPoint::InfoFn => self.info,
            EntryPoint::OpenFn => self.open,
            EntryPoint::CloseFn => self.close,
            EntryPoint::SetFn => self.set,
            EntryPoint::GetFn => self.get,
        }
    }

    /// The table holds the given addresses, in resolution order.
    pub open spec fn holds(self, addresses: Seq<usize>) -> bool {
        &&& addresses.len() == ENTRY_POINTS
        &&& forall|i: int| 0 <= i < ENTRY_POINTS ==> self.address(EntryPoint::at(i)) == addresses[i]
    }

    pub(crate) fn assemble(addresses: &Vec<usize>) -> (r: Library)
        requires
            addresses@.len() == ENTRY_POINTS,
            forall|i: int| 0 <= i < addresses@.len() ==> addresses@[i] != 0,
        ensures
            r.holds(addresses@),
    {
        let r = Library {
            info: addresses[0],
            open: addresses[1],
            close: addresses[2],
            set: addresses[3],
            get: addresses[4],
        };
        assert forall|i: int| 0 <= i < ENTRY_POINTS implies r.address(EntryPoint::at(i))
            == addresses@[i] by {
            assert(i == 0 || i == 1 || i == 2 || i == 3 || i == 4);
        }
        r
    }

    /// The address of an entry point. It is never null.
    pub fn entry(&self, entry: EntryPoint) -> (a: usize)
        ensures
            a == self.address(entry),
            a != 0,
    {
        proof {
            use_type_invariant(self);
        }
        match entry {
            EntryPoint::InfoFn => self.info,
            EntryPoint::OpenFn => self.open,
            EntryPoint::CloseFn => self.close,
            EntryPoint::SetFn => self.set,
            EntryPoint::GetFn => self.get,
        }
    }

    /// Starts loading the module at a path, given by its bytes.
    ///
    /// A path whose last component does not have the extension `so` fails
    /// with `PathValidation`, and no loader for it exists. Any other path
    /// yields the loader for that path, whatever follows its last component.
    pub fn load(path: &[u8]) -> (r: Result<Loader, BridgeError>)
        ensures
            match r {
                Ok(loader) => has_library_suffix(path@) && loader.target() == path@,
                Err(e) => !has_library_suffix(path@) && e == BridgeError::PathValidation,
            },
    {
        if !names_library(path) {
            return Err(BridgeError::PathValidation);
        }
        Ok(Loader::new(path))
    }

    /// Marshals an info request.
    ///
    /// Fails with `Encoding` exactly when `client` holds a zero byte.
    pub fn info(&self, client: &str) -> (r: Result<InfoCall, BridgeError>)
        ensures
            match r {
                Ok(call) => {
                    &&& nul_free(client.spec_bytes())
                    &&& call.entry == self.address(EntryPoint::InfoFn)
                    &&& call.entry != 0
                    &&& call.client_name@ == terminated(client.spec_bytes())
                },
                Err(e) => e matches BridgeError::Encoding { argument: Argument::Client, position }
                    && first_nul(client.spec_bytes(), position as int),
            },
    {
        let client_name = encode(Argument::Client, client)?;
        Ok(InfoCall { entry: self.entry(EntryPoint::InfoFn), client_name })
    }

    /// Marshals an open request. The size limit is passed on as it is.
    ///
    /// Fails with `Encoding` exactly when `client` holds a zero byte.
    pub fn open(&self, client: &str, max_payload_size: u32) -> (r: Result<OpenCall, BridgeError>)
        ensures
            match r {
                Ok(call) => {
                    &&& nul_free(client.spec_bytes())
                    &&& call.entry == self.address(EntryPoint::OpenFn)
                    &&& call.entry != 0
                    &&& call.client_name@ == terminated(client.spec_bytes())
                    &&& call.max_payload_size == max_payload_size
                },
                Err(e) => e matches BridgeError::Encoding { argument: Argument::Client, position }
                    && first_nul(client.spec_bytes(), position as int),
            },
    {
        let client_name = encode(Argument::Client, client)?;
        Ok(OpenCall { entry: self.entry(EntryPoint::OpenFn), client_name, max_payload_size })
    }

    /// Marshals the close of a session, which it consumes.
    pub fn close(&self, session: Session) -> (call: CloseCall)
        ensures
            call.entry == self.address(EntryPoint::CloseFn),
            call.entry != 0,
            call.handle == session@,
            call.handle != 0,
    {
        CloseCall { entry: self.entry(EntryPoint::CloseFn), handle: session.handle() }
    }

    /// Marshals a set request.
    ///
    /// The byte length is the caller's, not the payload's own. Fails with
    /// `Encoding`, naming the first of component, object and payload that
    /// holds a zero byte, exactly when one of them does.
    pub fn set(
        &self,
        session: &Session,
        component: &str,
        object: &str,
        payload: &str,
        size: usize,
    ) -> (r: Result<SetCall, BridgeError>)
        ensures
            match r {
                Ok(call) => {
                    &&& nul_free(component.spec_bytes())
                    &&& nul_free(object.spec_bytes())
                    &&& nul_free(payload.spec_bytes())
                    &&& call.entry == self.address(EntryPoint::SetFn)
                    &&& call.entry != 0
                    &&& call.handle == session@
                    &&& call.handle != 0
                    &&& call.component@ == terminated(component.spec_bytes())
                    &&& call.object@ == terminated(object.spec_bytes())
                    &&& call.payload@ == terminated(payload.spec_bytes())
                    &&& call.size == wire_size(size)
                    &&& size <= i32::MAX ==> call.size == size
                },
                Err(e) => e matches BridgeError::Encoding { argument, position } && {
                    ||| argument == Argument::Component && first_nul(
                        component.spec_bytes(),
                        position as int,
                    )
                    ||| argument == Argument::Object && nul_free(component.spec_bytes())
                        && first_nul(object.spec_bytes(), position as int)
                    ||| argument == Argument::Payload && nul_free(component.spec_bytes())
                        && nul_free(object.spec_bytes()) && first_nul(
                        payload.spec_bytes(),
                        position as int,
                    )
                },
            },
    {
        let component_name = encode(Argument::Component, component)?;
        let object_name = encode(Argument::Object, object)?;
        let value = encode(Argument::Payload, payload)?;
        Ok(
            SetCall {
                entry: self.entry(EntryPoint::SetFn),
                handle: session.handle(),
                component: component_name,
                object: object_name,
                payload: value,
                size: to_wire_size(size),
            },
        )
    }

    /// Marshals a get request.
    ///
    /// Fails with `Encoding`, naming the first of component and object that
    /// holds a zero byte, exactly when one of them does.
    pub fn get(&self, session: &Session, component: &str, object: &str) -> (r: Result<
        GetCall,
        BridgeError,
    >)
        ensures
            match r {
                Ok(call) => {
                    &&& nul_free(component.spec_bytes())
                    &&& nul_free(object.spec_bytes())
                    &&& call.entry == self.address(EntryPoint::GetFn)
                    &&& call.entry != 0
                    &&& call.handle == session@
                    &&& call.handle != 0
                    &&& call.component@ == terminated(component.spec_bytes())
                    &&& call.object@ == terminated(object.spec_bytes())
                },
                Err(e) => e matches BridgeError::Encoding { argument, position } && {
                    ||| argument == Argument::Component && first_nul(
                        component.spec_bytes(),
                        position as int,
                    )
                    ||| argument == Argument::Object && nul_free(component.spec_bytes())
                        && first_nul(object.spec_bytes(), position as int)
                },
            },
    {
        let component_name = encode(Argument::Component, component)?;
        let object_name = encode(Argument::Object, object)?;
        Ok(
            GetCall {
                entry: self.entry(EntryPoint::GetFn),
                handle: session.handle(),
                component: component_name,
                object: object_name,
            },
        )
    }
}

impl InfoCall {
    /// Takes the status that the info entry point returned.
    ///
    /// Any status but success fails with `ModuleCall` and that status, and
    /// the out-buffer is left unread. Success yields the licence to read it.
    pub fn reply(self, status: i32) -> (r: Result<InfoPayload, BridgeError>)
        ensures
            status == OK ==> r is Ok,
            status != OK ==> r == Err::<InfoPayload, BridgeError>(
                BridgeError::ModuleCall { status },
            ),
    {
        if status != OK {
            return Err(BridgeError::ModuleCall { status });
        }
        Ok(InfoPayload { status })
    }
}

impl InfoPayload {
    #[verifier::type_invariant]
    spec fn succeeded(self) -> bool {
        self.status == OK
    }

    /// Decodes the out-buffer of a successful info call.
    ///
    /// The bytes are read as UTF-8, invalid sequences replaced, and the text
    /// as the JSON form of a descriptor. A buffer that holds no descriptor
    /// fails with `Schema`.
    pub fn decode(self, payload: &[u8]) -> (r: Result<ModuleInfo, BridgeError>)
        ensures
            decodes_to(utf8_lossy(payload@), r),
            valid_utf8(payload@) ==> decodes_to(decode_utf8(payload@), r),
    {
        let text = crate::marshal::decode(payload);
        ModuleInfo::from_json(text.as_str())
    }
}

impl OpenCall {
    /// Takes the handle that the open entry point returned.
    ///
    /// The null handle fails with `Open`. Any other handle becomes a
    /// session, with no further validation.
    pub fn reply(self, handle: usize) -> (r: Result<Session, BridgeError>)
        ensures
            match r {
                Ok(session) => handle != 0 && session@ == handle,
                Err(e) => handle == 0 && e == BridgeError::Open,
            },
    {
        if handle == 0 {
            return Err(BridgeError::Open);
        }
        Ok(Session { handle })
    }
}

impl CloseCall {
    /// Takes note that the close entry point returned. Nothing of what the
    /// module did is observed, and no failure is ever reported.
    pub fn reply(self) -> (r: Result<(), BridgeError>)
        ensures
            r is Ok,
    {
        Ok(())
    }
}

impl SetCall {
    /// Takes the status that the set entry point returned and hands it on
    /// as it is.
    pub fn reply(self, status: i32) -> (r: i32)
        ensures
            r == status,
    {
        status
    }
}

impl GetCall {
    /// Takes the status and the out-buffer that the get entry point
    /// returned.
    ///
    /// The status is handed on as it is, and the bytes are read as UTF-8,
    /// invalid sequences replaced, whatever the status.
    pub fn reply(self, status: i32, payload: &[u8]) -> (r: (i32, String))
        ensures
            r.0 == status,
            r.1@ == utf8_lossy(payload@),
            valid_utf8(payload@) ==> r.1@ == decode_utf8(payload@),
    {
        (status, crate::marshal::decode(payload))
    }
}

} // verus!
