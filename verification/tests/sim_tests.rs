use crossfs::cli::{plan_launch, Cli, Launch, SimType, UsageError};
use crossfs::msfs::{freeze_toggles, wants_frozen, FreezeFlags};
use crossfs::plugin::{flight_loop_step, should_try_connect, ChannelEvent};
use crossfs::xplane::{
    closing_message, opening_messages, forward_from_xplane, forward_to_xplane, FromXPlane, FromXPlaneServer, ToXPlane, ToXPlaneServer,
    XPlaneSim,
};
use crossfs::{Error, Mode};

fn cli() -> Cli {
    Cli {
        xplane: false,
        msfs: false,
        address: None,
        master: false,
        serve: false,
        password: None,
        serve_port: 26000,
    }
}

#[test]
fn sim_from_args() {
    let mut a = cli();
    assert_eq!(SimType::from_args(&a), None);
    a.msfs = true;
    assert_eq!(SimType::from_args(&a), Some(SimType::Msfs));
    a.xplane = true;
    assert_eq!(SimType::from_args(&a), Some(SimType::XPlane));
}

#[test]
fn nothing_selected() {
    assert_eq!(plan_launch(&cli()).unwrap_err(), UsageError::NoOptionSelected);
    assert_eq!(UsageError::NoOptionSelected.message(), "No option selected.");
}

#[test]
fn two_sims_selected() {
    let mut a = cli();
    a.xplane = true;
    a.msfs = true;
    assert_eq!(plan_launch(&a).unwrap_err(), UsageError::MoreThanOneSim);
    assert_eq!(UsageError::MoreThanOneSim.message(), "More than one sim selected.");
}

#[test]
fn serve_with_password_refused() {
    let mut a = cli();
    a.serve = true;
    a.password = Some(3);
    assert_eq!(plan_launch(&a).unwrap_err(), UsageError::PasswordWithServe);
    a.msfs = true;
    assert_eq!(plan_launch(&a).unwrap_err(), UsageError::PasswordWithServe);
    assert_eq!(
        UsageError::PasswordWithServe.message(),
        "The --password argument cannot be used with --serve."
    );
}

#[test]
fn serve_alone_and_with_sim() {
    let mut a = cli();
    a.serve = true;
    assert!(matches!(plan_launch(&a), Ok(Launch::Serve { port: 26000 })));
    a.xplane = true;
    a.master = true;
    assert!(matches!(
        plan_launch(&a),
        Ok(Launch::ServeAndJoin { sim: SimType::XPlane, port: 26000, master: true })
    ));
}

#[test]
fn join_needs_password_and_address() {
    let mut a = cli();
    a.msfs = true;
    assert_eq!(plan_launch(&a).unwrap_err(), UsageError::PasswordMissing);
    a.password = Some(12345678);
    assert_eq!(plan_launch(&a).unwrap_err(), UsageError::AddressMissing);
    a.address = Some("123.45.67.8:26000".to_string());
    match plan_launch(&a) {
        Ok(Launch::Join { sim, address, password, master }) => {
            assert_eq!(sim, SimType::Msfs);
            assert_eq!(address, "123.45.67.8:26000");
            assert_eq!(password, 12345678);
            assert!(!master);
        }
        other => panic!("unexpected {other:?}"),
    }
    assert_eq!(UsageError::PasswordMissing.message(), "Password must be specified.");
    assert_eq!(UsageError::AddressMissing.message(), "Server address must be specified.");
}

#[test]
fn follower_freezes() {
    assert!(wants_frozen(Mode::Slave));
    assert!(!wants_frozen(Mode::Master));
    assert!(!wants_frozen(Mode::Off));
}

#[test]
fn toggles_only_what_differs() {
    let current = FreezeFlags { lat_long: true, altitude: false, attitude: true };
    assert_eq!(
        freeze_toggles(current, true),
        FreezeFlags { lat_long: false, altitude: true, attitude: false }
    );
    assert_eq!(
        freeze_toggles(current, false),
        FreezeFlags { lat_long: true, altitude: false, attitude: true }
    );
}

#[test]
fn xplane_messages() {
    let mut x = XPlaneSim::new(0u32);
    assert!(!x.ready());
    assert!(x.handle_message(FromXPlaneServer::Connected).is_ok());
    assert!(x.ready());
    assert!(x.handle_message(FromXPlaneServer::Primary(7)).is_ok());
    assert_eq!(*x.current_primary(), 7);
    assert!(matches!(
        x.handle_message(FromXPlaneServer::Disconnected),
        Err(Error::Disconnected)
    ));
    assert!(!x.ready());
    assert_eq!(*x.current_primary(), 7);
}

#[test]
fn xplane_forwarding() {
    assert!(matches!(forward_from_xplane(FromXPlane::Primary(3u8)), FromXPlaneServer::Primary(3)));
    assert!(matches!(
        forward_to_xplane(ToXPlaneServer::<u8>::SetMode(Mode::Slave)),
        Some(ToXPlane::SetMode(Mode::Slave))
    ));
    assert!(matches!(
        forward_to_xplane(ToXPlaneServer::SetPrimary(4u8)),
        Some(ToXPlane::SetPrimary(4))
    ));
    assert!(forward_to_xplane(ToXPlaneServer::<u8>::Disconnect).is_none());
}

#[test]
fn plugin_connect_attempts() {
    assert!(should_try_connect(0));
    assert!(should_try_connect(20));
    assert!(should_try_connect(40));
    assert!(!should_try_connect(21));
    assert!(!should_try_connect(39));
}

#[test]
fn plugin_steps() {
    let step = flight_loop_step::<u8>(
        Mode::Off,
        ChannelEvent::Received(ToXPlane::SetMode(Mode::Slave)),
    );
    assert_eq!(step.mode, Mode::Slave);
    assert_eq!(step.override_physics, Some(true));
    assert!(!step.report_primary);
    assert!(!step.disconnect);
    let step = flight_loop_step::<u8>(
        Mode::Slave,
        ChannelEvent::Received(ToXPlane::SetMode(Mode::Master)),
    );
    assert_eq!(step.override_physics, Some(false));
    assert!(step.report_primary);
    let step = flight_loop_step(Mode::Slave, ChannelEvent::Received(ToXPlane::SetPrimary(9u8)));
    assert_eq!(step.mode, Mode::Slave);
    assert_eq!(step.apply, Some(9));
    assert_eq!(step.override_physics, None);
    let step = flight_loop_step::<u8>(Mode::Master, ChannelEvent::Empty);
    assert!(step.report_primary);
    assert!(step.apply.is_none());
    let step = flight_loop_step::<u8>(Mode::Master, ChannelEvent::Closed);
    assert!(step.disconnect);
    assert!(!step.report_primary);
}

#[test]
fn xplane_link_opening_and_closing() {
    let (to_session, to_plugin) = opening_messages::<u8>();
    assert!(matches!(to_session, FromXPlaneServer::Connected));
    assert!(matches!(to_plugin, ToXPlane::SetMode(Mode::Master)));
    assert!(matches!(closing_message::<u8>(), ToXPlane::SetMode(Mode::Off)));
}
