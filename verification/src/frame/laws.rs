//! What holds of headers across several operations: flags only accumulate,
//! the order in which they are set does not matter, setters touch nothing but
//! the flags, and a header survives the trip through its raw form.
//!
//! The statements are over the models that the contracts in
//! [`crate::frame::header`] use: [`fresh_header`] for what a constructor
//! builds, [`with_flags`] for what a flag setter does, and the view of
//! [`Flags`] as a set of flags.

use vstd::prelude::*;

use crate::frame::header::{
    fresh_header, lemma_and_is_union, lemma_flags_determined_by_view, with_flags, Flags, Header,
    Len, RawHeader, Type, Version,
};
use crate::frame::Kind;
use crate::stream;

verus! {

/// `raw` after a run of flag setters, the first element of `flags` being set
/// first.
pub open spec fn set_all(raw: RawHeader, flags: Seq<Flags>) -> RawHeader
    decreases flags.len(),
{
    if flags.len() == 0 {
        raw
    } else {
        with_flags(set_all(raw, flags.drop_last()), flags.last())
    }
}

/// Whether the `i`-th setter of the run sets flag `k`.
pub open spec fn sets_flag(flags: Seq<Flags>, i: int, k: int) -> bool {
    0 <= i < flags.len() && flags[i]@.contains(k)
}

/// The flags that are in `start` or set by some setter of the run.
pub open spec fn flags_ever_set(start: Flags, flags: Seq<Flags>) -> Set<int> {
    Set::new(|k: int| start@.contains(k) || exists|i: int| sets_flag(flags, i, k))
}

/// Setting a flag keeps every flag that was there and adds the new one.
pub proof fn lemma_with_flags_accumulates(raw: RawHeader, flags: Flags)
    ensures
        with_flags(raw, flags).flags@ == raw.flags@.union(flags@),
        with_flags(raw, flags).flags.spec_contains(raw.flags),
        with_flags(raw, flags).flags.spec_contains(flags),
{
    lemma_and_is_union(raw.flags, flags);
}

/// A run of flag setters changes nothing but the flags.
pub proof fn lemma_set_all_keeps_fields(raw: RawHeader, flags: Seq<Flags>)
    ensures
        set_all(raw, flags).version == raw.version,
        set_all(raw, flags).typ == raw.typ,
        set_all(raw, flags).stream_id == raw.stream_id,
        set_all(raw, flags).length == raw.length,
    decreases flags.len(),
{
    if flags.len() > 0 {
        lemma_set_all_keeps_fields(raw, flags.drop_last());
    }
}

/// After a run of flag setters the header has exactly the flags it started
/// with and those that some setter of the run set.
pub proof fn lemma_set_all_flags(raw: RawHeader, flags: Seq<Flags>)
    ensures
        set_all(raw, flags).flags@ == flags_ever_set(raw.flags, flags),
    decreases flags.len(),
{
    let after = set_all(raw, flags).flags@;
    let ever = flags_ever_set(raw.flags, flags);
    if flags.len() == 0 {
        assert forall|k: int| after.contains(k) <==> ever.contains(k) by {
            assert(forall|i: int| !sets_flag(flags, i, k));
        }
    } else {
        let init = flags.drop_last();
        let before = set_all(raw, init);
        lemma_set_all_flags(raw, init);
        lemma_and_is_union(before.flags, flags.last());
        assert forall|k: int| after.contains(k) <==> ever.contains(k) by {
            if after.contains(k) && !raw.flags@.contains(k) {
                if flags.last()@.contains(k) {
                    assert(sets_flag(flags, flags.len() - 1, k));
                } else {
                    let i = choose|i: int| sets_flag(init, i, k);
                    assert(sets_flag(flags, i, k));
                }
            }
            if ever.contains(k) && !raw.flags@.contains(k) {
                let i = choose|i: int| sets_flag(flags, i, k);
                if i < flags.len() - 1 {
                    assert(sets_flag(init, i, k));
                }
            }
        }
    }
    assert(after =~= ever);
}

/// Flags only accumulate: after any run of flag setters the header contains
/// the flags it started with and the flags of every setter of the run.
pub proof fn lemma_set_all_contains(raw: RawHeader, flags: Seq<Flags>)
    ensures
        set_all(raw, flags).flags.spec_contains(raw.flags),
        forall|i: int|
            0 <= i < flags.len() ==> set_all(raw, flags).flags.spec_contains(#[trigger] flags[i]),
{
    lemma_set_all_flags(raw, flags);
    assert forall|i: int| 0 <= i < flags.len() implies set_all(raw, flags).flags.spec_contains(
        #[trigger] flags[i],
    ) by {
        assert forall|k: int| flags[i]@.contains(k) implies set_all(raw, flags).flags@.contains(
            k,
        ) by {
            assert(sets_flag(flags, i, k));
        }
    }
}

/// Two runs of flag setters that set the same flag sets, however often and in
/// whatever order, lead from one header to the same header.
pub proof fn lemma_set_all_same_elements(raw: RawHeader, first: Seq<Flags>, second: Seq<Flags>)
    requires
        forall|i: int| 0 <= i < first.len() ==> second.contains(#[trigger] first[i]),
        forall|i: int| 0 <= i < second.len() ==> first.contains(#[trigger] second[i]),
    ensures
        set_all(raw, first) == set_all(raw, second),
{
    let a = set_all(raw, first);
    let b = set_all(raw, second);
    lemma_set_all_flags(raw, first);
    lemma_set_all_flags(raw, second);
    assert forall|k: int| a.flags@.contains(k) <==> b.flags@.contains(k) by {
        if a.flags@.contains(k) && !raw.flags@.contains(k) {
            let i = choose|i: int| sets_flag(first, i, k);
            assert(second.contains(first[i]));
            let j = choose|j: int| 0 <= j < second.len() && second[j] == first[i];
            assert(sets_flag(second, j, k));
        }
        if b.flags@.contains(k) && !raw.flags@.contains(k) {
            let j = choose|j: int| sets_flag(second, j, k);
            assert(first.contains(second[j]));
            let i = choose|i: int| 0 <= i < first.len() && first[i] == second[j];
            assert(sets_flag(first, i, k));
        }
    }
    assert(a.flags@ =~= b.flags@);
    lemma_flags_determined_by_view(a.flags, b.flags);
    lemma_set_all_keeps_fields(raw, first);
    lemma_set_all_keeps_fields(raw, second);
}

/// The order of the flag setters does not matter: a run and any reordering of
/// it lead from one header to the same header.
pub proof fn lemma_set_all_order_independent(
    raw: RawHeader,
    first: Seq<Flags>,
    second: Seq<Flags>,
)
    requires
        first.to_multiset() == second.to_multiset(),
    ensures
        set_all(raw, first) == set_all(raw, second),
{
    first.to_multiset_ensures();
    second.to_multiset_ensures();
    assert forall|i: int| 0 <= i < first.len() implies second.contains(#[trigger] first[i]) by {
        assert(first.contains(first[i]));
        assert(first.to_multiset().count(first[i]) > 0);
        assert(second.to_multiset().count(first[i]) > 0);
    }
    assert forall|i: int| 0 <= i < second.len() implies first.contains(#[trigger] second[i]) by {
        assert(second.contains(second[i]));
        assert(second.to_multiset().count(second[i]) > 0);
        assert(first.to_multiset().count(second[i]) > 0);
    }
    lemma_set_all_same_elements(raw, first, second);
}

/// A header keeps what its constructor fixed, whatever flags are set on it
/// afterwards: version 0, the discriminant of its kind, its stream and the
/// value of its slot.
pub proof fn lemma_built_fields_kept(typ: Type, id: stream::Id, length: u32, flags: Seq<Flags>)
    ensures
        set_all(fresh_header(typ, id, length), flags).version == Version(0),
        set_all(fresh_header(typ, id, length), flags).typ == typ,
        set_all(fresh_header(typ, id, length), flags).stream_id == id,
        set_all(fresh_header(typ, id, length), flags).length == Len(length),
{
    lemma_set_all_keeps_fields(fresh_header(typ, id, length), flags);
}

/// Keepalive and termination headers carry the connection's own identifier,
/// 0, for every nonce and every code. Data and window-update headers carry
/// the identifier they were built with.
pub proof fn lemma_id_policy(id: stream::Id, length: u32, flags: Seq<Flags>)
    ensures
        set_all(fresh_header(Type::Ping, stream::Id::session(), length), flags).stream_id.0 == 0,
        set_all(fresh_header(Type::GoAway, stream::Id::session(), length), flags).stream_id.0 == 0,
        set_all(fresh_header(Type::Data, id, length), flags).stream_id == id,
        set_all(fresh_header(Type::WindowUpdate, id, length), flags).stream_id == id,
{
    lemma_built_fields_kept(Type::Ping, stream::Id::session(), length, flags);
    lemma_built_fields_kept(Type::GoAway, stream::Id::session(), length, flags);
    lemma_built_fields_kept(Type::Data, id, length, flags);
    lemma_built_fields_kept(Type::WindowUpdate, id, length, flags);
}

/// Round trip. What the constructor of kind `T` builds, with any flags set
/// on it since, unwraps to a raw header that `T` admits, and the header that
/// is read back from it has that same raw header.
pub proof fn lemma_round_trip<T: Kind>(id: stream::Id, length: u32, flags: Seq<Flags>)
    ensures
        Header::<T>::admits(set_all(fresh_header(T::spec_typ(), id, length), flags)),
        Header::<T>::spec_from_raw(set_all(fresh_header(T::spec_typ(), id, length), flags))@
            == set_all(fresh_header(T::spec_typ(), id, length), flags),
{
    let raw = set_all(fresh_header(T::spec_typ(), id, length), flags);
    lemma_set_all_keeps_fields(fresh_header(T::spec_typ(), id, length), flags);
    Header::<T>::lemma_from_raw_view(raw);
}

} // verus!
