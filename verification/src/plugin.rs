//! The host-side plugin: the class factory that makes it, its lifecycle and
//! listener callbacks, and the callback of one connection, which echoes.
//!
//! The host calls through interfaces that only it defines. The types here
//! hold what those calls decide, on plain values: whether a pointer was
//! given, which identifier was asked for, which bytes came in.

use vstd::prelude::*;
use vstd::slice::slice_to_vec;

verus! {

/// The class identifier under which the plugin is registered.
pub const CLSID_ECHODVC_PLUGIN: u128 = 0xF5234ABF_AC88_4D6E_AA8D_490DF08F194D;

/// The interface identifier of a class factory.
pub const IID_CLASS_FACTORY: u128 = 0x00000001_0000_0000_C000_000000000046;

/// The interface identifier of a virtual channel plugin.
pub const IID_WTS_PLUGIN: u128 = 0xA1230201_1439_4E62_A414_190D0AC3D40E;

/// The flags with which the plugin asks for its listener.
pub const LISTENER_FLAGS: u32 = 0;

/// Why a call from the host is refused.
#[derive(Clone, Copy, Debug, PartialEq, Eq, Structural)]
pub enum ComError {
    /// A required pointer is null.
    NullPointer,
    /// An argument is missing or unusable.
    InvalidArgument,
    /// The object does not have the interface asked for.
    NoInterface,
    /// The object cannot be made part of another one.
    NoAggregation,
    /// No class of this library answers to the identifiers given.
    ClassNotAvailable,
    /// The registry could not be brought to the state asked for.
    SelfRegistration,
}

impl ComError {
    /// The status code that the host is given for this error.
    pub open spec fn status(self) -> i32 {
        match self {
            ComError::NullPointer => -2147467261i32,
            ComError::InvalidArgument => -2147024809i32,
            ComError::NoInterface => -2147467262i32,
            ComError::NoAggregation => -2147221232i32,
            ComError::ClassNotAvailable => -2147221231i32,
            ComError::SelfRegistration => -2147220991i32,
        }
    }

    /// The status code that the host is given for this error: `E_POINTER`,
    /// `E_INVALIDARG`, `E_NOINTERFACE`, `CLASS_E_NOAGGREGATION`,
    /// `CLASS_E_CLASSNOTAVAILABLE` or `SELFREG_E_CLASS`.
    pub fn code(self) -> (r: i32)
        ensures
            r == self.status(),
            r < 0,
    {
        match self {
            ComError::NullPointer => -2147467261,
            ComError::InvalidArgument => -2147024809,
            ComError::NoInterface => -2147467262,
            ComError::NoAggregation => -2147221232,
            ComError::ClassNotAvailable => -2147221231,
            ComError::SelfRegistration => -2147220991,
        }
    }
}

/// The status code of a call that ended in `outcome`: zero for success.
pub fn status_of<T>(outcome: &Result<T, ComError>) -> (r: i32)
    ensures
        outcome matches Ok(_) ==> r == 0,
        outcome matches Err(error) ==> r == error.status(),
{
    match outcome {
        Ok(_) => 0,
        Err(error) => error.code(),
    }
}

/// The listener that the plugin asks the channel manager for.
#[derive(Clone, Copy, Debug, PartialEq, Eq)]
pub struct ListenerRequest {
    /// The name of the channel to listen on.
    pub channel: &'static str,
    /// The flags of the request.
    pub flags: u32,
}

/// The name of the channel that the plugin listens on.
pub fn channel_name() -> (r: &'static str)
    ensures
        r@ == "ECHOCHN"@,
{
    "ECHOCHN"
}

/// The factory that makes the plugin.
#[derive(Clone, Copy, Debug, PartialEq, Eq, Structural)]
pub struct EchoDVCClassFactory();

/// The plugin: it asks for one listener and accepts every connection.
#[derive(Clone, Copy, Debug, PartialEq, Eq, Structural)]
pub struct EchoDvcPlugin();

/// The callback of one connection: what it receives, it sends back.
#[derive(Clone, Copy, Debug, PartialEq, Eq, Structural)]
pub struct EchoDvcChannelCallback();

/// What the library answers when the host asks it for a class object.
pub open spec fn class_object_for(clsid: Option<u128>, iid: Option<u128>) -> Result<
    EchoDVCClassFactory,
    ComError,
> {
    if clsid is None || iid is None {
        Err(ComError::InvalidArgument)
    } else if iid != Some(IID_CLASS_FACTORY) || clsid != Some(CLSID_ECHODVC_PLUGIN) {
        Err(ComError::ClassNotAvailable)
    } else {
        Ok(EchoDVCClassFactory())
    }
}

/// Answers the host's request for a class object. Each identifier is
/// `None` where the host gave a null pointer. The factory is handed out for
/// the plugin's class identifier and the class factory interface, and for
/// nothing else.
pub fn get_class_object(clsid: Option<u128>, iid: Option<u128>) -> (r: Result<
    EchoDVCClassFactory,
    ComError,
>)
    ensures
        r == class_object_for(clsid, iid),
{
    let clsid = match clsid {
        Some(clsid) => clsid,
        None => {
            return Err(ComError::InvalidArgument);
        },
    };
    let iid = match iid {
        Some(iid) => iid,
        None => {
            return Err(ComError::InvalidArgument);
        },
    };
    if iid != IID_CLASS_FACTORY {
        return Err(ComError::ClassNotAvailable);
    }
    if clsid != CLSID_ECHODVC_PLUGIN {
        Err(ComError::ClassNotAvailable)
    } else {
        Ok(EchoDVCClassFactory())
    }
}

impl EchoDVCClassFactory {
    /// What the factory makes of a request for an instance.
    pub open spec fn instance_for(aggregated: bool, iid: u128) -> Result<EchoDvcPlugin, ComError> {
        if aggregated {
            Err(ComError::NoAggregation)
        } else if iid == IID_WTS_PLUGIN {
            Ok(EchoDvcPlugin())
        } else {
            Err(ComError::NoInterface)
        }
    }

    /// Makes the plugin. `aggregated` says that the host gave an outer
    /// object, which is refused; any interface but that of a virtual
    /// channel plugin is refused too.
    pub fn create_instance(&self, aggregated: bool, iid: u128) -> (r: Result<
        EchoDvcPlugin,
        ComError,
    >)
        ensures
            r == Self::instance_for(aggregated, iid),
    {
        if aggregated {
            return Err(ComError::NoAggregation);
        }
        if iid == IID_WTS_PLUGIN {
            Ok(EchoDvcPlugin())
        } else {
            Err(ComError::NoInterface)
        }
    }

    /// Takes note of a lock or an unlock of the server. There is nothing
    /// to keep, so it always succeeds.
    pub fn lock_server(&self, lock: bool) -> (r: Result<(), ComError>)
        ensures
            r == Ok::<(), ComError>(()),
    {
        Ok(())
    }
}

impl EchoDvcPlugin {
    /// Starts the plugin. Without a channel manager there is nothing to
    /// listen on; with one, the plugin asks for the listener of its channel.
    pub fn initialize(&self, manager_present: bool) -> (r: Result<ListenerRequest, ComError>)
        ensures
            !manager_present ==> r == Err::<ListenerRequest, ComError>(ComError::InvalidArgument),
            manager_present ==> (r matches Ok(request) && request.channel@ == "ECHOCHN"@
                && request.flags == LISTENER_FLAGS),
    {
        if !manager_present {
            return Err(ComError::InvalidArgument);
        }
        Ok(ListenerRequest { channel: channel_name(), flags: LISTENER_FLAGS })
    }

    /// The client has connected.
    pub fn connected(&self) -> (r: Result<(), ComError>)
        ensures
            r == Ok::<(), ComError>(()),
    {
        Ok(())
    }

    /// The client has disconnected, with this code.
    pub fn disconnected(&self, disconnect_code: u32) -> (r: Result<(), ComError>)
        ensures
            r == Ok::<(), ComError>(()),
    {
        Ok(())
    }

    /// The client has ended.
    pub fn terminated(&self) -> (r: Result<(), ComError>)
        ensures
            r == Ok::<(), ComError>(()),
    {
        Ok(())
    }

    /// A connection to the channel has come in. It is accepted, and gets a
    /// callback of its own, if the host gave the channel and a place to put
    /// the callback; a null pointer for either refuses it.
    pub fn on_new_channel_connection(
        &self,
        channel_present: bool,
        callback_slot_present: bool,
    ) -> (r: Result<EchoDvcChannelCallback, ComError>)
        ensures
            r == if channel_present && callback_slot_present {
                Ok::<EchoDvcChannelCallback, ComError>(EchoDvcChannelCallback())
            } else {
                Err::<EchoDvcChannelCallback, ComError>(ComError::NullPointer)
            },
    {
        if !channel_present || !callback_slot_present {
            return Err(ComError::NullPointer);
        }
        Ok(EchoDvcChannelCallback::new())
    }
}

impl EchoDvcChannelCallback {
    /// The callback of a new connection.
    pub fn new() -> (r: Self)
        ensures
            r == EchoDvcChannelCallback(),
    {
        EchoDvcChannelCallback()
    }

    /// Data has come in. The answer is what to write back on the same
    /// channel: the same bytes, none added and none removed.
    pub fn on_data_received(&self, data: &[u8]) -> (r: Vec<u8>)
        ensures
            r@ == data@,
    {
        slice_to_vec(data)
    }

    /// The connection is closed.
    pub fn on_close(&self) -> (r: Result<(), ComError>)
        ensures
            r == Ok::<(), ComError>(()),
    {
        Ok(())
    }
}

} // verus!
