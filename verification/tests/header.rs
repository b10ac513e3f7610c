use mux_header::frame::header::{
    Flags, Header, KindMismatch, Len, RawHeader, Type, Version, ACK, CODE_TERM, ECODE_INTERNAL,
    ECODE_PROTO, FIN, RST, SYN,
};
use mux_header::frame::{Data, GoAway, Kind, Ping, WindowUpdate};
use mux_header::stream::Id;

fn raw(typ: Type, flags: u16, id: u32, length: u32) -> RawHeader {
    RawHeader {
        version: Version(0),
        typ,
        flags: Flags(flags),
        stream_id: Id::new(id),
        length: Len(length),
    }
}

#[test]
fn kinds_know_their_discriminant() {
    assert_eq!(Data::typ(), Type::Data);
    assert_eq!(WindowUpdate::typ(), Type::WindowUpdate);
    assert_eq!(Ping::typ(), Type::Ping);
    assert_eq!(GoAway::typ(), Type::GoAway);
}

#[test]
fn data_header_is_fresh() {
    let h = Header::data(Id::new(5), 100);
    assert_eq!(h.id(), Id::new(5));
    assert_eq!(h.flags(), Flags(0));
    assert_eq!(h.len(), 100);
    assert_eq!(h.into_raw(), raw(Type::Data, 0, 5, 100));
}

#[test]
fn window_update_header_is_fresh() {
    let h = Header::window_update(Id::new(9), 7);
    assert_eq!(h.id(), Id::new(9));
    assert_eq!(h.flags(), Flags(0));
    assert_eq!(h.credit(), 7);
    assert_eq!(h.into_raw(), raw(Type::WindowUpdate, 0, 9, 7));
}

#[test]
fn ping_header_is_fresh() {
    let h = Header::ping(99);
    assert_eq!(h.id(), Id::new(0));
    assert_eq!(h.flags(), Flags(0));
    assert_eq!(h.nonce(), 99);
    assert_eq!(h.into_raw(), raw(Type::Ping, 0, 0, 99));
}

#[test]
fn go_away_header_is_fresh() {
    let h = Header::go_away(ECODE_INTERNAL);
    assert_eq!(h.id(), Id::new(0));
    assert_eq!(h.flags(), Flags(0));
    assert_eq!(h.error_code(), 2);
    assert_eq!(h.into_raw(), raw(Type::GoAway, 0, 0, 2));
}

#[test]
fn constructors_set_version_zero() {
    assert_eq!(Header::data(Id::new(1), 0).into_raw().version, Version(0));
    assert_eq!(Header::window_update(Id::new(1), 0).into_raw().version, Version(0));
    assert_eq!(Header::ping(0).into_raw().version, Version(0));
    assert_eq!(Header::go_away(0).into_raw().version, Version(0));
}

#[test]
fn slot_is_read_under_the_name_of_its_kind() {
    assert_eq!(Header::data(Id::new(3), 100).len(), 100);
    assert_eq!(Header::window_update(Id::new(3), 7).credit(), 7);
    assert_eq!(Header::ping(99).nonce(), 99);
    assert_eq!(Header::go_away(1).error_code(), 1);
}

#[test]
fn slot_takes_every_value() {
    assert_eq!(Header::data(Id::new(3), 0).len(), 0);
    assert_eq!(Header::data(Id::new(3), u32::MAX).len(), u32::MAX);
    assert_eq!(Header::window_update(Id::new(3), u32::MAX).credit(), u32::MAX);
    assert_eq!(Header::ping(u32::MAX).nonce(), u32::MAX);
    assert_eq!(Header::go_away(u32::MAX).error_code(), u32::MAX);
}

#[test]
fn connection_headers_have_id_zero() {
    for n in [0, 1, 99, 0x8000_0000, u32::MAX] {
        assert_eq!(Header::ping(n).id().as_u32(), 0);
        assert!(Header::ping(n).id().is_session());
        assert_eq!(Header::go_away(n).id().as_u32(), 0);
        assert!(Header::go_away(n).id().is_session());
    }
}

#[test]
fn stream_headers_keep_their_id() {
    for id in [1, 2, 5, 0x7fff_ffff, u32::MAX] {
        assert_eq!(Header::data(Id::new(id), 11).id(), Id::new(id));
        assert_eq!(Header::window_update(Id::new(id), 11).id(), Id::new(id));
    }
}

#[test]
fn ping_keeps_id_zero_when_flags_are_set() {
    let mut h = Header::ping(4);
    h.syn();
    h.ack();
    assert_eq!(h.id().as_u32(), 0);
    assert_eq!(h.nonce(), 4);
}

#[test]
fn data_setters_set_one_flag_each() {
    let mut h = Header::data(Id::new(1), 0);
    h.syn();
    assert_eq!(h.flags(), Flags(1));
    let mut h = Header::data(Id::new(1), 0);
    h.ack();
    assert_eq!(h.flags(), Flags(2));
    let mut h = Header::data(Id::new(1), 0);
    h.fin();
    assert_eq!(h.flags(), Flags(4));
    let mut h = Header::data(Id::new(1), 0);
    h.rst();
    assert_eq!(h.flags(), Flags(8));
}

#[test]
fn window_update_setters_set_one_flag_each() {
    let mut h = Header::window_update(Id::new(1), 0);
    h.syn();
    assert_eq!(h.flags(), Flags(1));
    let mut h = Header::window_update(Id::new(1), 0);
    h.ack();
    assert_eq!(h.flags(), Flags(2));
    let mut h = Header::window_update(Id::new(1), 0);
    h.fin();
    assert_eq!(h.flags(), Flags(4));
    let mut h = Header::window_update(Id::new(1), 0);
    h.rst();
    assert_eq!(h.flags(), Flags(8));
}

#[test]
fn ping_setters_set_one_flag_each() {
    let mut h = Header::ping(1);
    h.syn();
    assert_eq!(h.flags(), Flags(1));
    let mut h = Header::ping(1);
    h.ack();
    assert_eq!(h.flags(), Flags(2));
}

#[test]
fn setters_leave_the_other_fields_alone() {
    let mut h = Header::window_update(Id::new(21), 4096);
    h.syn();
    h.ack();
    h.fin();
    h.rst();
    assert_eq!(h.id(), Id::new(21));
    assert_eq!(h.credit(), 4096);
    assert_eq!(h.into_raw(), raw(Type::WindowUpdate, 15, 21, 4096));
}

#[test]
fn setting_a_flag_twice_changes_nothing() {
    let mut h = Header::data(Id::new(2), 8);
    h.fin();
    h.fin();
    assert_eq!(h.flags(), Flags(FIN));
    h.syn();
    h.fin();
    h.syn();
    assert_eq!(h.flags(), Flags(SYN | FIN));
}

#[test]
fn flags_accumulate_in_any_order() {
    let mut a = Header::data(Id::new(2), 8);
    a.syn();
    assert!(a.flags().contains(Flags(SYN)));
    a.ack();
    assert!(a.flags().contains(Flags(SYN)));
    assert!(a.flags().contains(Flags(ACK)));
    a.fin();
    a.rst();
    for bit in [SYN, ACK, FIN, RST] {
        assert!(a.flags().contains(Flags(bit)));
    }

    let mut b = Header::data(Id::new(2), 8);
    b.rst();
    b.fin();
    b.ack();
    b.syn();

    let mut c = Header::data(Id::new(2), 8);
    c.fin();
    c.syn();
    c.rst();
    c.syn();
    c.ack();
    c.fin();

    assert_eq!(a.flags(), Flags(15));
    assert_eq!(b.flags(), Flags(15));
    assert_eq!(c.flags(), Flags(15));
    assert_eq!(a.into_raw(), b.clone().into_raw());
    assert_eq!(b.into_raw(), c.into_raw());
}

#[test]
fn two_flags_in_either_order() {
    let mut a = Header::ping(3);
    a.syn();
    a.ack();
    let mut b = Header::ping(3);
    b.ack();
    b.syn();
    assert_eq!(a.flags(), Flags(3));
    assert_eq!(a.into_raw(), b.into_raw());
}

#[test]
fn data_syn_then_fin() {
    let mut h = Header::data(Id::new(5), 100);
    h.syn();
    h.fin();
    assert!(h.flags().contains(Flags(SYN).and(Flags(FIN))));
    assert!(!h.flags().contains(Flags(ACK)));
    assert_eq!(h.flags(), Flags(5));
    assert_eq!(h.id(), Id::new(5));
    assert_eq!(h.len(), 100);
}

#[test]
fn go_away_with_protocol_error() {
    let h = Header::go_away(ECODE_PROTO);
    assert_eq!(h.id().as_u32(), 0);
    assert_eq!(h.error_code(), 1);
    assert_eq!(h.flags(), Flags(0));
    assert_eq!(h.into_raw(), raw(Type::GoAway, 0, 0, 1));
}

#[test]
fn go_away_with_normal_termination() {
    let h = Header::go_away(CODE_TERM);
    assert_eq!(h.error_code(), 0);
    assert_eq!(h.into_raw(), raw(Type::GoAway, 0, 0, 0));
}

#[test]
fn data_round_trip() {
    let mut h = Header::data(Id::new(5), 100);
    h.syn();
    let first = h.into_raw();
    let back = Header::<Data>::from_raw(first.clone());
    assert_eq!(back.id(), Id::new(5));
    assert_eq!(back.len(), 100);
    assert_eq!(back.flags(), Flags(SYN));
    assert_eq!(back.into_raw(), first);
    assert_eq!(first, raw(Type::Data, 1, 5, 100));
}

#[test]
fn window_update_round_trip() {
    let mut h = Header::window_update(Id::new(6), 7);
    h.ack();
    let first = h.into_raw();
    let back = Header::<WindowUpdate>::from_raw(first.clone());
    assert_eq!(back.credit(), 7);
    assert_eq!(back.into_raw(), first);
    assert_eq!(first, raw(Type::WindowUpdate, 2, 6, 7));
}

#[test]
fn ping_round_trip() {
    let mut h = Header::ping(99);
    h.ack();
    let first = h.into_raw();
    let back = Header::<Ping>::from_raw(first.clone());
    assert_eq!(back.nonce(), 99);
    assert_eq!(back.into_raw(), first);
    assert_eq!(first, raw(Type::Ping, 2, 0, 99));
}

#[test]
fn go_away_round_trip() {
    let first = Header::go_away(1).into_raw();
    let back = Header::<GoAway>::from_raw(first.clone());
    assert_eq!(back.error_code(), 1);
    assert_eq!(back.into_raw(), first);
    assert_eq!(first, raw(Type::GoAway, 0, 0, 1));
}

#[test]
fn checked_round_trip_for_every_kind() {
    let first = Header::data(Id::new(5), 100).into_raw();
    let back = Header::<Data>::try_from_raw(first.clone()).unwrap();
    assert_eq!(back.into_raw(), first);

    let first = Header::window_update(Id::new(5), 7).into_raw();
    let back = Header::<WindowUpdate>::try_from_raw(first.clone()).unwrap();
    assert_eq!(back.into_raw(), first);

    let first = Header::ping(99).into_raw();
    let back = Header::<Ping>::try_from_raw(first.clone()).unwrap();
    assert_eq!(back.into_raw(), first);

    let first = Header::go_away(2).into_raw();
    let back = Header::<GoAway>::try_from_raw(first.clone()).unwrap();
    assert_eq!(back.into_raw(), first);
}

#[test]
fn received_header_is_taken_as_it_is() {
    let received = RawHeader {
        version: Version(3),
        typ: Type::Ping,
        flags: Flags(0x8002),
        stream_id: Id::new(17),
        length: Len(1234),
    };
    let h = Header::<Ping>::try_from_raw(received.clone()).unwrap();
    assert_eq!(h.id(), Id::new(17));
    assert_eq!(h.flags(), Flags(0x8002));
    assert_eq!(h.nonce(), 1234);
    assert_eq!(h.into_raw(), received);
}

#[test]
fn received_header_takes_more_flags() {
    let mut h = Header::<Data>::from_raw(raw(Type::Data, 0x0104, 3, 10));
    h.syn();
    assert_eq!(h.flags(), Flags(0x0105));
    assert!(h.flags().contains(Flags(0x0100)));
    assert_eq!(h.into_raw(), raw(Type::Data, 0x0105, 3, 10));
}

#[test]
fn mismatched_kind_is_reported() {
    let r = Header::<Ping>::try_from_raw(raw(Type::GoAway, 0, 0, 1));
    assert_eq!(r.unwrap_err(), KindMismatch { expected: Type::Ping, found: Type::GoAway });

    let r = Header::<Data>::try_from_raw(raw(Type::WindowUpdate, 1, 4, 1));
    assert_eq!(r.unwrap_err(), KindMismatch { expected: Type::Data, found: Type::WindowUpdate });

    let r = Header::<WindowUpdate>::try_from_raw(raw(Type::Data, 1, 4, 1));
    assert_eq!(r.unwrap_err(), KindMismatch { expected: Type::WindowUpdate, found: Type::Data });

    let r = Header::<GoAway>::try_from_raw(raw(Type::Ping, 0, 0, 1));
    assert_eq!(r.unwrap_err(), KindMismatch { expected: Type::GoAway, found: Type::Ping });
}

#[test]
fn every_kind_admits_only_its_own_discriminant() {
    for typ in [Type::Data, Type::WindowUpdate, Type::Ping, Type::GoAway] {
        let r = raw(typ, 0, 1, 1);
        assert_eq!(Header::<Data>::try_from_raw(r.clone()).is_ok(), typ == Type::Data);
        assert_eq!(
            Header::<WindowUpdate>::try_from_raw(r.clone()).is_ok(),
            typ == Type::WindowUpdate
        );
        assert_eq!(Header::<Ping>::try_from_raw(r.clone()).is_ok(), typ == Type::Ping);
        assert_eq!(Header::<GoAway>::try_from_raw(r.clone()).is_ok(), typ == Type::GoAway);
    }
}

#[test]
fn clone_is_an_equal_header() {
    let mut h = Header::data(Id::new(8), 64);
    h.rst();
    let copy = h.clone();
    h.syn();
    assert_eq!(copy.into_raw(), raw(Type::Data, 8, 8, 64));
    assert_eq!(h.into_raw(), raw(Type::Data, 9, 8, 64));
}

#[test]
fn raw_header_clone_is_equal() {
    let r = raw(Type::WindowUpdate, 6, 12, 500);
    assert_eq!(r.clone(), r);
}

#[test]
fn raw_headers_compare_field_by_field() {
    let r = raw(Type::Data, 1, 2, 3);
    assert_ne!(r, raw(Type::Ping, 1, 2, 3));
    assert_ne!(r, raw(Type::Data, 0, 2, 3));
    assert_ne!(r, raw(Type::Data, 1, 0, 3));
    assert_ne!(r, raw(Type::Data, 1, 2, 0));
    let mut other = raw(Type::Data, 1, 2, 3);
    other.version = Version(1);
    assert_ne!(r, other);
}

#[test]
fn rst_alone_does_not_contain_the_others() {
    let mut h = Header::data(Id::new(2), 0);
    h.rst();
    assert!(h.flags().contains(Flags(RST)));
    assert!(!h.flags().contains(Flags(SYN)));
    assert!(!h.flags().contains(Flags(ACK)));
    assert!(!h.flags().contains(Flags(FIN)));
    assert!(h.flags().contains(Flags(0)));
}
