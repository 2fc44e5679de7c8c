use echo_dvc::framing::frame;
use echo_dvc::header::FLAG_ONLY;
use echo_dvc::plugin::{
    channel_name, get_class_object, status_of, ComError, EchoDVCClassFactory,
    EchoDvcChannelCallback, EchoDvcPlugin, ListenerRequest, CLSID_ECHODVC_PLUGIN,
    IID_CLASS_FACTORY, IID_WTS_PLUGIN,
};
use echo_dvc::reassembly::{Reassembler, Reassembly};
use echo_dvc::session::{Action, Session};

#[test]
fn class_object_is_the_factory_of_the_plugin() {
    assert_eq!(
        get_class_object(Some(CLSID_ECHODVC_PLUGIN), Some(IID_CLASS_FACTORY)),
        Ok(EchoDVCClassFactory())
    );
}

#[test]
fn class_object_needs_both_identifiers() {
    assert_eq!(get_class_object(None, Some(IID_CLASS_FACTORY)), Err(ComError::InvalidArgument));
    assert_eq!(get_class_object(Some(CLSID_ECHODVC_PLUGIN), None), Err(ComError::InvalidArgument));
    assert_eq!(get_class_object(None, None), Err(ComError::InvalidArgument));
}

#[test]
fn class_object_of_another_class_or_interface_is_not_available() {
    assert_eq!(
        get_class_object(Some(CLSID_ECHODVC_PLUGIN), Some(IID_WTS_PLUGIN)),
        Err(ComError::ClassNotAvailable)
    );
    assert_eq!(
        get_class_object(Some(CLSID_ECHODVC_PLUGIN + 1), Some(IID_CLASS_FACTORY)),
        Err(ComError::ClassNotAvailable)
    );
    assert_eq!(get_class_object(Some(0), Some(0)), Err(ComError::ClassNotAvailable));
}

#[test]
fn factory_makes_the_plugin() {
    let factory = EchoDVCClassFactory();
    assert_eq!(factory.create_instance(false, IID_WTS_PLUGIN), Ok(EchoDvcPlugin()));
}

#[test]
fn factory_refuses_aggregation_and_other_interfaces() {
    let factory = EchoDVCClassFactory();
    assert_eq!(factory.create_instance(true, IID_WTS_PLUGIN), Err(ComError::NoAggregation));
    assert_eq!(factory.create_instance(true, 0), Err(ComError::NoAggregation));
    assert_eq!(factory.create_instance(false, IID_CLASS_FACTORY), Err(ComError::NoInterface));
    assert_eq!(factory.create_instance(false, 0), Err(ComError::NoInterface));
}

#[test]
fn lock_server_always_succeeds() {
    let factory = EchoDVCClassFactory();
    assert_eq!(factory.lock_server(true), Ok(()));
    assert_eq!(factory.lock_server(false), Ok(()));
}

#[test]
fn plugin_asks_for_the_listener_of_its_channel() {
    let plugin = EchoDvcPlugin();
    assert_eq!(
        plugin.initialize(true),
        Ok(ListenerRequest { channel: "ECHOCHN", flags: 0 })
    );
    assert_eq!(channel_name(), "ECHOCHN");
}

#[test]
fn plugin_needs_a_channel_manager() {
    assert_eq!(EchoDvcPlugin().initialize(false), Err(ComError::InvalidArgument));
}

#[test]
fn lifecycle_callbacks_succeed() {
    let plugin = EchoDvcPlugin();
    assert_eq!(plugin.connected(), Ok(()));
    assert_eq!(plugin.disconnected(0), Ok(()));
    assert_eq!(plugin.disconnected(u32::MAX), Ok(()));
    assert_eq!(plugin.terminated(), Ok(()));
    assert_eq!(EchoDvcChannelCallback::new().on_close(), Ok(()));
}

#[test]
fn connection_is_accepted_when_both_pointers_are_given() {
    let plugin = EchoDvcPlugin();
    assert_eq!(plugin.on_new_channel_connection(true, true), Ok(EchoDvcChannelCallback()));
    assert_eq!(plugin.on_new_channel_connection(false, true), Err(ComError::NullPointer));
    assert_eq!(plugin.on_new_channel_connection(true, false), Err(ComError::NullPointer));
    assert_eq!(plugin.on_new_channel_connection(false, false), Err(ComError::NullPointer));
}

#[test]
fn callback_sends_back_what_it_received() {
    let callback = EchoDvcChannelCallback::new();
    assert_eq!(callback.on_data_received(b"hello"), b"hello".to_vec());
    assert_eq!(callback.on_data_received(&[]), Vec::<u8>::new());
    let data: Vec<u8> = (0..=255u8).collect();
    assert_eq!(callback.on_data_received(&data), data);
}

#[test]
fn errors_have_the_status_codes_of_the_host() {
    assert_eq!(ComError::NullPointer.code(), 0x8000_4003_u32 as i32);
    assert_eq!(ComError::InvalidArgument.code(), 0x8007_0057_u32 as i32);
    assert_eq!(ComError::NoInterface.code(), 0x8000_4002_u32 as i32);
    assert_eq!(ComError::NoAggregation.code(), 0x8004_0110_u32 as i32);
    assert_eq!(ComError::ClassNotAvailable.code(), 0x8004_0111_u32 as i32);
    assert_eq!(ComError::SelfRegistration.code(), 0x8004_0201_u32 as i32);
}

#[test]
fn status_of_success_is_zero() {
    assert_eq!(status_of(&Ok::<(), ComError>(())), 0);
    assert_eq!(status_of(&Ok::<u8, ComError>(7)), 0);
    assert_eq!(status_of(&Err::<(), ComError>(ComError::NoInterface)), 0x8000_4002_u32 as i32);
}

#[test]
fn hello_comes_back_from_the_peer() {
    let mut session = Session::new();
    let sent = match session.line("write hello\n") {
        Action::Write(bytes) => bytes,
        other => panic!("a write was asked for: {:?}", other),
    };
    assert_eq!(sent, b"hello".to_vec());

    let echoed = EchoDvcChannelCallback::new().on_data_received(&sent);
    let fragment = frame(echoed.len() as u32, FLAG_ONLY, &echoed);
    assert_eq!(fragment, vec![5, 0, 0, 0, 3, 0, 0, 0, b'h', b'e', b'l', b'l', b'o']);

    assert_eq!(session.written(Ok(sent.len() as u32)), Action::Read);
    let message = match Reassembler::new().accept(&fragment) {
        Reassembly::Complete(message) => message,
        other => panic!("one fragment is the whole message: {:?}", other),
    };
    assert_eq!(message, b"hello".to_vec());
    assert_eq!(session.received(Ok(message)), Action::Show(b"hello".to_vec()));
}
