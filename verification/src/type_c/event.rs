//! TCPM event types and bitfields.
//!
//! Hardware typically stores pending events and interrupts in bitfields, so generic versions of
//! these are provided here. [`PortStatusChanged`] holds events related to the overall port state,
//! [`PortNotification`] holds message-like events that can be processed one at a time.
use vstd::prelude::*;

verus! {

/// Bit `i` of a 16-bit raw event register.
pub open spec fn bit16(x: u16, i: u16) -> bool {
    (x >> i) & 1u16 == 1u16
}

/// Setting bit `i` of `x` leaves every other bit alone.
pub proof fn lemma_bit16_set(x: u16, i: u16, j: u16)
    by (bit_vector)
    requires
        i < 16,
        j < 16,
    ensures
        ((x | (1u16 << i)) >> j) & 1u16 == 1u16 <==> (j == i || (x >> j) & 1u16 == 1u16),
{
}

/// Clearing bit `i` of `x` leaves every other bit alone.
pub proof fn lemma_bit16_clear(x: u16, i: u16, j: u16)
    by (bit_vector)
    requires
        i < 16,
        j < 16,
    ensures
        ((x & !(1u16 << i)) >> j) & 1u16 == 1u16 <==> (j != i && (x >> j) & 1u16 == 1u16),
{
}

/// A bit of `x | y` is set exactly when it is set in `x` or in `y`.
pub proof fn lemma_bit16_or(x: u16, y: u16, j: u16)
    by (bit_vector)
    requires
        j < 16,
    ensures
        ((x | y) >> j) & 1u16 == 1u16 <==> ((x >> j) & 1u16 == 1u16 || (y >> j) & 1u16 == 1u16),
{
}

/// No bit of zero is set.
pub proof fn lemma_bit16_zero(j: u16)
    by (bit_vector)
    requires
        j < 16,
    ensures
        !((0u16 >> j) & 1u16 == 1u16),
{
}

/// The raw value after writing `value` into bit `i` of `x`.
pub open spec fn with_bit16(x: u16, i: u16, value: bool) -> u16 {
    if value {
        x | (1u16 << i)
    } else {
        x & !(1u16 << i)
    }
}

/// Writing bit `i` sets it to `value` and keeps the other bits.
pub proof fn lemma_with_bit16(x: u16, i: u16, value: bool, j: u16)
    requires
        i < 16,
        j < 16,
    ensures
        bit16(with_bit16(x, i, value), j) == if j == i { value } else { bit16(x, j) },
{
    if value {
        lemma_bit16_set(x, i, j);
    } else {
        lemma_bit16_clear(x, i, j);
    }
}

/// Reads bit `i` of `x`.
fn read_bit16(x: u16, i: u16) -> (r: bool)
    requires
        i < 16,
    ensures
        r == bit16(x, i),
{
    (x >> i) & 1u16 == 1u16
}

/// Writes `value` into bit `i` of `x`.
fn write_bit16(x: u16, i: u16, value: bool) -> (r: u16)
    requires
        i < 16,
    ensures
        r == with_bit16(x, i, value),
        forall|j: u16| j < 16 ==> #[trigger] bit16(r, j) == if j == i { value } else { bit16(x, j) },
{
    let r = if value {
        x | (1u16 << i)
    } else {
        x & !(1u16 << i)
    };
    assert forall|j: u16| j < 16 implies #[trigger] bit16(r, j) == if j == i { value } else { bit16(x, j) } by {
        lemma_with_bit16(x, i, value, j);
    }
    r
}

/// A register whose bits under `mask` are clear keeps them clear when a bit outside `mask` is
/// set or cleared.
pub proof fn lemma_mask_write(x: u16, i: u16, mask: u16)
    by (bit_vector)
    requires
        i < 16,
        x & mask == 0,
        (1u16 << i) & mask == 0,
    ensures
        (x | (1u16 << i)) & mask == 0,
        (x & !(1u16 << i)) & mask == 0,
{
}

/// The union of two registers whose bits under `mask` are clear has them clear too.
pub proof fn lemma_mask_or(x: u16, y: u16, mask: u16)
    by (bit_vector)
    requires
        x & mask == 0,
        y & mask == 0,
    ensures
        (x | y) & mask == 0,
{
}

/// Union of raw registers is idempotent.
pub proof fn lemma_or16_idempotent(a: u16)
    by (bit_vector)
    ensures
        a | a == a,
{
}

/// A notification register with only bits 0 and 1 in use is zero when neither of them is set.
pub proof fn lemma_notification_zero(x: u16)
    by (bit_vector)
    requires
        x & 0xfffcu16 == 0,
        (x >> 0u16) & 1u16 != 1u16,
        (x >> 1u16) & 1u16 != 1u16,
    ensures
        x == 0,
{
}

/// Bits of the status register that no event uses: all but 0, 2, 3, 4 and 5.
pub const STATUS_UNUSED_BITS: u16 = 0xffc2;

/// Bits of the notification register that no notification uses: all but 0 and 1.
pub const NOTIFICATION_UNUSED_BITS: u16 = 0xfffc;

/// Bit position of the plug inserted or removed event.
pub const PLUG_INSERTED_OR_REMOVED_BIT: u16 = 0;
/// Bit position of the new power contract as provider event.
pub const NEW_POWER_CONTRACT_AS_PROVIDER_BIT: u16 = 2;
/// Bit position of the new power contract as consumer event.
pub const NEW_POWER_CONTRACT_AS_CONSUMER_BIT: u16 = 3;
/// Bit position of the source caps received event.
pub const SOURCE_CAPS_RECEIVED_BIT: u16 = 4;
/// Bit position of the sink ready event.
pub const SINK_READY_BIT: u16 = 5;

/// Bit position of the PD alert notification.
pub const ALERT_BIT: u16 = 0;
/// Bit position of the VDM notification.
pub const VDM_BIT: u16 = 1;

/// Raw bitfield of possible port status events.
#[derive(Copy, Clone, Debug, PartialEq, Eq)]
struct PortStatusChangedRaw(u16);

/// Port status change events.
///
/// A type-safe wrapper around the raw bitfield. These events are related to the overall port
/// state and typically need to be considered together.
#[derive(Copy, Clone, Debug, PartialEq, Eq)]
pub struct PortStatusChanged(PortStatusChangedRaw);

impl PortStatusChanged {
    /// The value with no pending events.
    pub closed spec fn spec_none() -> Self {
        PortStatusChanged(PortStatusChangedRaw(0))
    }

    /// The raw register value.
    pub closed spec fn raw(self) -> u16 {
        self.0.0
    }

    /// Only the bits of defined events can be set.
    #[verifier::type_invariant]
    pub open spec fn defined(self) -> bool {
        self.raw() & STATUS_UNUSED_BITS == 0
    }

    /// The union of two values: the events pending in either.
    pub closed spec fn spec_union(self, other: Self) -> Self {
        PortStatusChanged(PortStatusChangedRaw(self.0.0 | other.0.0))
    }

    /// The union of two values holds the union of their registers.
    pub proof fn lemma_union_raw(self, other: Self)
        ensures
            self.spec_union(other).raw() == self.raw() | other.raw(),
    {
    }

    /// Whether the event at bit `i` is pending.
    pub open spec fn flag(self, i: u16) -> bool {
        bit16(self.raw(), i)
    }

    /// Creates a value with no pending events.
    pub fn none() -> (r: Self)
        ensures
            r == Self::spec_none(),
            r.raw() == 0,
            forall|i: u16| i < 16 ==> !#[trigger] r.flag(i),
    {
        proof {
            assert forall|i: u16| i < 16 implies !#[trigger] bit16(0u16, i) by {
                lemma_bit16_zero(i);
            }
        }
        assert(0u16 & 0xffc2u16 == 0) by (bit_vector);
        Self(PortStatusChangedRaw(0))
    }

    /// Returns the union of self and other.
    pub fn union(self, other: PortStatusChanged) -> (r: PortStatusChanged)
        ensures
            r == self.spec_union(other),
            r.raw() == self.raw() | other.raw(),
            forall|i: u16| i < 16 ==> #[trigger] r.flag(i) == (self.flag(i) || other.flag(i)),
    {
        proof {
            use_type_invariant(&self);
            use_type_invariant(&other);
            lemma_mask_or(self.0.0, other.0.0, STATUS_UNUSED_BITS);
        }
        let r = PortStatusChanged(PortStatusChangedRaw(self.0.0 | other.0.0));
        proof {
            assert forall|i: u16| i < 16 implies #[trigger] r.flag(i) == (self.flag(i) || other.flag(i)) by {
                lemma_bit16_or(self.raw(), other.raw(), i);
            }
        }
        r
    }

    fn set_flag(&mut self, i: u16, value: bool)
        requires
            i == PLUG_INSERTED_OR_REMOVED_BIT || i == NEW_POWER_CONTRACT_AS_PROVIDER_BIT
                || i == NEW_POWER_CONTRACT_AS_CONSUMER_BIT || i == SOURCE_CAPS_RECEIVED_BIT || i == SINK_READY_BIT,
        ensures
            final(self).raw() == with_bit16(old(self).raw(), i, value),
            forall|j: u16| j < 16 ==> #[trigger] final(self).flag(j) == if j == i { value } else { old(self).flag(j) },
    {
        proof {
            use_type_invariant(&*self);
            assert((1u16 << i) & 0xffc2u16 == 0) by (bit_vector)
                requires
                    i == 0u16 || i == 2u16 || i == 3u16 || i == 4u16 || i == 5u16,
            ;
            lemma_mask_write(self.0.0, i, STATUS_UNUSED_BITS);
        }
        self.0.0 = write_bit16(self.0.0, i, value);
    }

    /// Returns true if a plug was inserted or removed.
    pub fn plug_inserted_or_removed(self) -> (r: bool)
        ensures
            r == self.flag(PLUG_INSERTED_OR_REMOVED_BIT),
    {
        read_bit16(self.0.0, PLUG_INSERTED_OR_REMOVED_BIT)
    }

    /// Sets the plug inserted or removed event.
    pub fn set_plug_inserted_or_removed(&mut self, value: bool)
        ensures
            final(self).raw() == with_bit16(old(self).raw(), PLUG_INSERTED_OR_REMOVED_BIT, value),
            forall|j: u16| j < 16 ==> #[trigger] final(self).flag(j) == if j == PLUG_INSERTED_OR_REMOVED_BIT { value } else { old(self).flag(j) },
    {
        self.set_flag(PLUG_INSERTED_OR_REMOVED_BIT, value);
    }

    /// Returns true if a new power contract was established as provider.
    pub fn new_power_contract_as_provider(&self) -> (r: bool)
        ensures
            r == self.flag(NEW_POWER_CONTRACT_AS_PROVIDER_BIT),
    {
        read_bit16(self.0.0, NEW_POWER_CONTRACT_AS_PROVIDER_BIT)
    }

    /// Sets the new power contract as provider event.
    pub fn set_new_power_contract_as_provider(&mut self, value: bool)
        ensures
            final(self).raw() == with_bit16(old(self).raw(), NEW_POWER_CONTRACT_AS_PROVIDER_BIT, value),
            forall|j: u16| j < 16 ==> #[trigger] final(self).flag(j) == if j == NEW_POWER_CONTRACT_AS_PROVIDER_BIT { value } else { old(self).flag(j) },
    {
        self.set_flag(NEW_POWER_CONTRACT_AS_PROVIDER_BIT, value);
    }

    /// Returns true if a new power contract was established as consumer.
    pub fn new_power_contract_as_consumer(self) -> (r: bool)
        ensures
            r == self.flag(NEW_POWER_CONTRACT_AS_CONSUMER_BIT),
    {
        read_bit16(self.0.0, NEW_POWER_CONTRACT_AS_CONSUMER_BIT)
    }

    /// Sets the new power contract as consumer event.
    pub fn set_new_power_contract_as_consumer(&mut self, value: bool)
        ensures
            final(self).raw() == with_bit16(old(self).raw(), NEW_POWER_CONTRACT_AS_CONSUMER_BIT, value),
            forall|j: u16| j < 16 ==> #[trigger] final(self).flag(j) == if j == NEW_POWER_CONTRACT_AS_CONSUMER_BIT { value } else { old(self).flag(j) },
    {
        self.set_flag(NEW_POWER_CONTRACT_AS_CONSUMER_BIT, value);
    }

    /// Returns true if a source caps message was received.
    pub fn source_caps_received(self) -> (r: bool)
        ensures
            r == self.flag(SOURCE_CAPS_RECEIVED_BIT),
    {
        read_bit16(self.0.0, SOURCE_CAPS_RECEIVED_BIT)
    }

    /// Sets the source caps received event.
    pub fn set_source_caps_received(&mut self, value: bool)
        ensures
            final(self).raw() == with_bit16(old(self).raw(), SOURCE_CAPS_RECEIVED_BIT, value),
            forall|j: u16| j < 16 ==> #[trigger] final(self).flag(j) == if j == SOURCE_CAPS_RECEIVED_BIT { value } else { old(self).flag(j) },
    {
        self.set_flag(SOURCE_CAPS_RECEIVED_BIT, value);
    }

    /// Returns true if a sink ready event triggered.
    pub fn sink_ready(self) -> (r: bool)
        ensures
            r == self.flag(SINK_READY_BIT),
    {
        read_bit16(self.0.0, SINK_READY_BIT)
    }

    /// Sets the sink ready event.
    pub fn set_sink_ready(&mut self, value: bool)
        ensures
            final(self).raw() == with_bit16(old(self).raw(), SINK_READY_BIT, value),
            forall|j: u16| j < 16 ==> #[trigger] final(self).flag(j) == if j == SINK_READY_BIT { value } else { old(self).flag(j) },
    {
        self.set_flag(SINK_READY_BIT, value);
    }
}


/// Raw bitfield of possible port notification events.
#[derive(Copy, Clone, Debug, PartialEq, Eq)]
struct PortNotificationRaw(u16);

/// Port notification events.
///
/// A type-safe wrapper around the raw bitfield. These events are unrelated to the overall port
/// state and to each other, so they can be drained one at a time with [`PortNotification::next`].
#[derive(Copy, Clone, Debug, PartialEq, Eq)]
pub struct PortNotification(PortNotificationRaw);

/// Individual port notifications.
#[derive(Copy, Clone, Debug, PartialEq, Eq)]
pub enum PortNotificationSingle {
    /// PD alert
    Alert,
    /// Received a VDM
    Vdm,
}

impl PortNotification {
    /// The value with no pending events.
    pub closed spec fn spec_none() -> Self {
        PortNotification(PortNotificationRaw(0))
    }

    /// The raw register value.
    pub closed spec fn raw(self) -> u16 {
        self.0.0
    }

    /// Only the bits of defined notifications can be set.
    #[verifier::type_invariant]
    pub open spec fn defined(self) -> bool {
        self.raw() & NOTIFICATION_UNUSED_BITS == 0
    }

    /// The union of two values: the notifications pending in either.
    pub closed spec fn spec_union(self, other: Self) -> Self {
        PortNotification(PortNotificationRaw(self.0.0 | other.0.0))
    }

    /// The union of two values holds the union of their registers.
    pub proof fn lemma_union_raw(self, other: Self)
        ensures
            self.spec_union(other).raw() == self.raw() | other.raw(),
    {
    }

    /// A value with only defined notifications and none of them pending is the empty value.
    pub proof fn lemma_no_flags_is_none(self)
        requires
            self.defined(),
            !self.flag(ALERT_BIT),
            !self.flag(VDM_BIT),
        ensures
            self == Self::spec_none(),
    {
        lemma_notification_zero(self.raw());
    }

    /// Whether the notification at bit `i` is pending.
    pub open spec fn flag(self, i: u16) -> bool {
        bit16(self.raw(), i)
    }

    /// The notification that [`PortNotification::next`] yields from this value.
    pub open spec fn spec_next_item(self) -> Option<PortNotificationSingle> {
        if self.flag(ALERT_BIT) {
            Some(PortNotificationSingle::Alert)
        } else if self.flag(VDM_BIT) {
            Some(PortNotificationSingle::Vdm)
        } else {
            None
        }
    }

    /// Creates a value with no pending notifications.
    pub fn none() -> (r: Self)
        ensures
            r == Self::spec_none(),
            r.raw() == 0,
            forall|i: u16| i < 16 ==> !#[trigger] r.flag(i),
    {
        proof {
            assert forall|i: u16| i < 16 implies !#[trigger] bit16(0u16, i) by {
                lemma_bit16_zero(i);
            }
        }
        assert(0u16 & 0xfffcu16 == 0) by (bit_vector);
        Self(PortNotificationRaw(0))
    }

    /// Returns the union of self and other.
    pub fn union(self, other: PortNotification) -> (r: PortNotification)
        ensures
            r == self.spec_union(other),
            r.raw() == self.raw() | other.raw(),
            forall|i: u16| i < 16 ==> #[trigger] r.flag(i) == (self.flag(i) || other.flag(i)),
    {
        proof {
            use_type_invariant(&self);
            use_type_invariant(&other);
            lemma_mask_or(self.0.0, other.0.0, NOTIFICATION_UNUSED_BITS);
        }
        let r = PortNotification(PortNotificationRaw(self.0.0 | other.0.0));
        proof {
            assert forall|i: u16| i < 16 implies #[trigger] r.flag(i) == (self.flag(i) || other.flag(i)) by {
                lemma_bit16_or(self.raw(), other.raw(), i);
            }
        }
        r
    }

    fn set_flag(&mut self, i: u16, value: bool)
        requires
            i == ALERT_BIT || i == VDM_BIT,
        ensures
            final(self).raw() == with_bit16(old(self).raw(), i, value),
            forall|j: u16| j < 16 ==> #[trigger] final(self).flag(j) == if j == i { value } else { old(self).flag(j) },
    {
        proof {
            use_type_invariant(&*self);
            assert((1u16 << i) & 0xfffcu16 == 0) by (bit_vector)
                requires
                    i == 0u16 || i == 1u16,
            ;
            lemma_mask_write(self.0.0, i, NOTIFICATION_UNUSED_BITS);
        }
        self.0.0 = write_bit16(self.0.0, i, value);
    }

    /// Returns true if an alert was received.
    pub fn alert(self) -> (r: bool)
        ensures
            r == self.flag(ALERT_BIT),
    {
        read_bit16(self.0.0, ALERT_BIT)
    }

    /// Sets the alert event.
    pub fn set_alert(&mut self, value: bool)
        ensures
            final(self).raw() == with_bit16(old(self).raw(), ALERT_BIT, value),
            forall|j: u16| j < 16 ==> #[trigger] final(self).flag(j) == if j == ALERT_BIT { value } else { old(self).flag(j) },
    {
        self.set_flag(ALERT_BIT, value);
    }

    /// Returns true if a VDM was received.
    pub fn vdm(self) -> (r: bool)
        ensures
            r == self.flag(VDM_BIT),
    {
        read_bit16(self.0.0, VDM_BIT)
    }

    /// Sets the VDM event.
    pub fn set_vdm(&mut self, value: bool)
        ensures
            final(self).raw() == with_bit16(old(self).raw(), VDM_BIT, value),
            forall|j: u16| j < 16 ==> #[trigger] final(self).flag(j) == if j == VDM_BIT { value } else { old(self).flag(j) },
    {
        self.set_flag(VDM_BIT, value);
    }

    /// Takes the next pending notification: alerts first, then VDMs.
    ///
    /// The yielded notification is cleared; every other bit is kept.
    pub fn next(&mut self) -> (r: Option<PortNotificationSingle>)
        ensures
            r == old(self).spec_next_item(),
            *final(self) == old(self).spec_after_next(),
            final(self).raw() == match r {
                Some(PortNotificationSingle::Alert) => with_bit16(old(self).raw(), ALERT_BIT, false),
                Some(PortNotificationSingle::Vdm) => with_bit16(old(self).raw(), VDM_BIT, false),
                None => old(self).raw(),
            },
            forall|j: u16| j < 16 ==> #[trigger] final(self).flag(j) == match r {
                Some(PortNotificationSingle::Alert) => j != ALERT_BIT && old(self).flag(j),
                Some(PortNotificationSingle::Vdm) => j != VDM_BIT && old(self).flag(j),
                None => old(self).flag(j),
            },
            r is None <==> *old(self) == Self::spec_none(),
            r == Some(PortNotificationSingle::Vdm) ==> *final(self) == Self::spec_none(),
    {
        proof {
            use_type_invariant(&*self);
            if !self.flag(ALERT_BIT) && !self.flag(VDM_BIT) {
                self.lemma_no_flags_is_none();
            }
            lemma_bit16_zero(ALERT_BIT);
            lemma_bit16_zero(VDM_BIT);
        }
        if self.alert() {
            self.set_alert(false);
            Some(PortNotificationSingle::Alert)
        } else if self.vdm() {
            self.set_vdm(false);
            proof {
                use_type_invariant(&*self);
                self.lemma_no_flags_is_none();
            }
            Some(PortNotificationSingle::Vdm)
        } else {
            None
        }
    }
}

impl PortNotification {
    /// The value that [`PortNotification::next`] leaves behind.
    pub open spec fn spec_after_next(self) -> PortNotification {
        match self.spec_next_item() {
            Some(PortNotificationSingle::Alert) => self.spec_with_raw(with_bit16(self.raw(), ALERT_BIT, false)),
            Some(PortNotificationSingle::Vdm) => self.spec_with_raw(with_bit16(self.raw(), VDM_BIT, false)),
            None => self,
        }
    }

    /// A notification value with the given raw register.
    pub closed spec fn spec_with_raw(self, raw: u16) -> PortNotification {
        PortNotification(PortNotificationRaw(raw))
    }

    /// The raw register of a value built from a raw register is that register.
    pub proof fn lemma_with_raw(self, raw: u16)
        ensures
            self.spec_with_raw(raw).raw() == raw,
    {
    }
}

/// Draining notifications yields a pending alert first, then a pending VDM, each exactly once,
/// and then nothing: after at most two items `next` yields `None`.
pub proof fn law_notification_drain(n: PortNotification)
    ensures
        n.spec_next_item() == if n.flag(ALERT_BIT) {
            Some(PortNotificationSingle::Alert)
        } else if n.flag(VDM_BIT) {
            Some(PortNotificationSingle::Vdm)
        } else {
            None
        },
        n.flag(ALERT_BIT) ==> n.spec_after_next().spec_next_item() == if n.flag(VDM_BIT) {
            Some(PortNotificationSingle::Vdm)
        } else {
            None
        },
        n.spec_after_next().spec_after_next().spec_next_item() is None,
        forall|j: u16|
            2 <= j < 16 ==> #[trigger] n.spec_after_next().spec_after_next().flag(j) == n.flag(j),
{
    let n1 = n.spec_after_next();
    let n2 = n1.spec_after_next();
    assert forall|j: u16| j < 16 implies #[trigger] n1.flag(j) == if n.spec_next_item() is None {
        n.flag(j)
    } else if n.flag(ALERT_BIT) {
        j != ALERT_BIT && n.flag(j)
    } else {
        j != VDM_BIT && n.flag(j)
    } by {
        if n.flag(ALERT_BIT) {
            n.lemma_with_raw(with_bit16(n.raw(), ALERT_BIT, false));
            lemma_with_bit16(n.raw(), ALERT_BIT, false, j);
        } else if n.flag(VDM_BIT) {
            n.lemma_with_raw(with_bit16(n.raw(), VDM_BIT, false));
            lemma_with_bit16(n.raw(), VDM_BIT, false, j);
        }
    }
    assert forall|j: u16| j < 16 implies #[trigger] n2.flag(j) == if n1.spec_next_item() is None {
        n1.flag(j)
    } else if n1.flag(ALERT_BIT) {
        j != ALERT_BIT && n1.flag(j)
    } else {
        j != VDM_BIT && n1.flag(j)
    } by {
        if n1.flag(ALERT_BIT) {
            n1.lemma_with_raw(with_bit16(n1.raw(), ALERT_BIT, false));
            lemma_with_bit16(n1.raw(), ALERT_BIT, false, j);
        } else if n1.flag(VDM_BIT) {
            n1.lemma_with_raw(with_bit16(n1.raw(), VDM_BIT, false));
            lemma_with_bit16(n1.raw(), VDM_BIT, false, j);
        }
    }
    assert(n1.flag(ALERT_BIT) == false || n.spec_next_item() is None);
    assert(n2.flag(ALERT_BIT) == false);
    assert(n2.flag(VDM_BIT) == false);
}

/// Union of raw registers is commutative and associative, and the empty register is its
/// identity.
pub proof fn lemma_or16_laws(a: u16, b: u16, c: u16)
    by (bit_vector)
    ensures
        a | b == b | a,
        (a | b) | c == a | (b | c),
        a | 0u16 == a,
{
}

/// The union of port status changes is commutative, associative and idempotent, and `none` is
/// its identity.
pub proof fn law_port_status_union(a: PortStatusChanged, b: PortStatusChanged, c: PortStatusChanged)
    ensures
        a.spec_union(b) == b.spec_union(a),
        a.spec_union(b).spec_union(c) == a.spec_union(b.spec_union(c)),
        a.spec_union(PortStatusChanged::spec_none()) == a,
        a.spec_union(a) == a,
        a.raw() | b.raw() == b.raw() | a.raw(),
        (a.raw() | b.raw()) | c.raw() == a.raw() | (b.raw() | c.raw()),
        a.raw() | PortStatusChanged::spec_none().raw() == a.raw(),
{
    lemma_or16_laws(a.raw(), b.raw(), c.raw());
    lemma_or16_idempotent(a.raw());
}

/// The union of port notifications is commutative, associative and idempotent, and `none` is its
/// identity.
pub proof fn law_port_notification_union(a: PortNotification, b: PortNotification, c: PortNotification)
    ensures
        a.spec_union(b) == b.spec_union(a),
        a.spec_union(b).spec_union(c) == a.spec_union(b.spec_union(c)),
        a.spec_union(PortNotification::spec_none()) == a,
        a.spec_union(a) == a,
        a.raw() | b.raw() == b.raw() | a.raw(),
        (a.raw() | b.raw()) | c.raw() == a.raw() | (b.raw() | c.raw()),
        a.raw() | PortNotification::spec_none().raw() == a.raw(),
{
    lemma_or16_laws(a.raw(), b.raw(), c.raw());
    lemma_or16_idempotent(a.raw());
}

/// Draining a notification value that holds only defined notifications leaves it empty after
/// two steps: it is then `none`.
pub proof fn law_notification_drain_to_none(n: PortNotification)
    requires
        n.defined(),
    ensures
        n.spec_after_next().spec_after_next() == PortNotification::spec_none(),
{
    law_notification_drain(n);
    let n1 = n.spec_after_next();
    let n2 = n1.spec_after_next();
    assert(n1.defined()) by {
        assert((1u16 << 0u16) & 0xfffcu16 == 0 && (1u16 << 1u16) & 0xfffcu16 == 0) by (bit_vector);
        lemma_mask_write(n.raw(), ALERT_BIT, NOTIFICATION_UNUSED_BITS);
        lemma_mask_write(n.raw(), VDM_BIT, NOTIFICATION_UNUSED_BITS);
        n.lemma_with_raw(with_bit16(n.raw(), ALERT_BIT, false));
        n.lemma_with_raw(with_bit16(n.raw(), VDM_BIT, false));
    }
    assert(n2.defined()) by {
        assert((1u16 << 0u16) & 0xfffcu16 == 0 && (1u16 << 1u16) & 0xfffcu16 == 0) by (bit_vector);
        lemma_mask_write(n1.raw(), ALERT_BIT, NOTIFICATION_UNUSED_BITS);
        lemma_mask_write(n1.raw(), VDM_BIT, NOTIFICATION_UNUSED_BITS);
        n1.lemma_with_raw(with_bit16(n1.raw(), ALERT_BIT, false));
        n1.lemma_with_raw(with_bit16(n1.raw(), VDM_BIT, false));
    }
    assert(!n2.flag(ALERT_BIT) && !n2.flag(VDM_BIT)) by {
        if n2.flag(ALERT_BIT) || n2.flag(VDM_BIT) {
            assert(n2.spec_next_item() is Some);
        }
    }
    n2.lemma_no_flags_is_none();
}

/// Overall port event type.
#[derive(Copy, Clone, Debug, PartialEq, Eq)]
pub struct PortEvent {
    /// Port status change events
    pub status: PortStatusChanged,
    /// Port notification events
    pub notification: PortNotification,
}

impl PortEvent {
    /// Creates a new PortEvent with no pending events.
    pub fn none() -> (r: Self)
        ensures
            r.status.raw() == 0,
            r.notification.raw() == 0,
    {
        Self { status: PortStatusChanged::none(), notification: PortNotification::none() }
    }

    /// Returns the union of self and other.
    pub fn union(self, other: PortEvent) -> (r: PortEvent)
        ensures
            r.status.raw() == self.status.raw() | other.status.raw(),
            r.notification.raw() == self.notification.raw() | other.notification.raw(),
    {
        PortEvent {
            status: self.status.union(other.status),
            notification: self.notification.union(other.notification),
        }
    }
}

impl From<PortStatusChanged> for PortEvent {
    fn from(status: PortStatusChanged) -> (r: Self) {
        Self { status, notification: PortNotification::none() }
    }
}

impl vstd::std_specs::convert::FromSpecImpl<PortStatusChanged> for PortEvent {
    open spec fn obeys_from_spec() -> bool {
        true
    }

    open spec fn from_spec(v: PortStatusChanged) -> Self {
        PortEvent { status: v, notification: PortNotification::spec_none() }
    }
}

impl From<PortNotification> for PortEvent {
    fn from(notification: PortNotification) -> (r: Self) {
        Self { status: PortStatusChanged::none(), notification }
    }
}

impl vstd::std_specs::convert::FromSpecImpl<PortNotification> for PortEvent {
    open spec fn obeys_from_spec() -> bool {
        true
    }

    open spec fn from_spec(v: PortNotification) -> Self {
        PortEvent { status: PortStatusChanged::spec_none(), notification: v }
    }
}


/// The bitvec bit array behind [`PortPending`]: 32 bits in one `u32`, bit `i` at `1 << i`.
///
/// The array is opaque here and is read and written only through the items below.
#[verifier::external_body]
#[derive(Copy)]
pub struct PortPendingVec {
    bits: bitvec::array::BitArray<[u32; 1], bitvec::order::Lsb0>,
}

impl Clone for PortPendingVec {
    /// `Clone` for `BitArray` (a plain copy of its backing word): the copy holds the same bits.
    #[verifier::external_body]
    fn clone(&self) -> (r: Self)
        ensures
            port_bits(r) == port_bits(*self),
    {
        PortPendingVec { bits: self.bits }
    }
}

/// Number of ports a [`PortPending`] can track.
pub const PORT_PENDING_BITS: usize = 32;

/// The bits held by a pending-port bit array, index `i` standing for port `i`.
pub uninterp spec fn port_bits(bits: PortPendingVec) -> Seq<bool>;

/// `BitArray::ZERO`: an array whose 32 bits are all clear.
#[verifier::external_body]
fn bits_zero() -> (r: PortPendingVec)
    ensures
        port_bits(r) == Seq::new(32, |i: int| false),
{
    PortPendingVec { bits: bitvec::array::BitArray::ZERO }
}

/// `BitSlice::set` (reached through `BitArray`'s deref): writes `value` at `index`, keeps every
/// other bit. It panics on an index at or past the length, which `requires` rules out.
#[verifier::external_body]
fn bits_set(bits: &mut PortPendingVec, index: usize, value: bool)
    requires
        index < port_bits(*old(bits)).len(),
    ensures
        port_bits(*final(bits)) == port_bits(*old(bits)).update(index as int, value),
{
    bits.bits.set(index, value);
}

/// `BitSlice` indexing (reached through `BitArray`'s deref): reads the bit at `index`. It panics
/// on an index at or past the length, which `requires` rules out.
#[verifier::external_body]
fn bits_get(bits: &PortPendingVec, index: usize) -> (r: bool)
    requires
        index < port_bits(*bits).len(),
    ensures
        r == port_bits(*bits)[index as int],
{
    bits.bits[index]
}

/// `BitOr` for `BitArray`: the bitwise or of two arrays of equal length.
#[verifier::external_body]
fn bits_or(a: &PortPendingVec, b: &PortPendingVec) -> (r: PortPendingVec)
    requires
        port_bits(*a).len() == port_bits(*b).len(),
    ensures
        port_bits(r) == Seq::new(port_bits(*a).len(), |i: int| port_bits(*a)[i] || port_bits(*b)[i]),
{
    PortPendingVec { bits: a.bits | b.bits }
}

/// `BitArray::len`: the number of bits, which for one `u32` is 32.
#[verifier::external_body]
fn bits_len(bits: &PortPendingVec) -> (r: usize)
    ensures
        r == 32,
        r == port_bits(*bits).len(),
{
    bits.bits.len()
}

/// `PartialEq` for `BitArray`: equal when the two arrays hold the same bits.
#[verifier::external_body]
fn bits_eq(a: &PortPendingVec, b: &PortPendingVec) -> (r: bool)
    ensures
        r == (port_bits(*a) == port_bits(*b)),
{
    a.bits == b.bits
}

/// The public `data` field of `BitArray`: its one backing word, bit `i` being `(word >> i) & 1`
/// in the least-significant-bit-first order.
#[verifier::external_body]
fn bits_word(bits: &PortPendingVec) -> (r: u32)
    requires
        port_bits(*bits).len() == 32,
    ensures
        forall|i: u32| i < 32 ==> (((r >> i) & 1u32) == 1u32) == #[trigger] port_bits(*bits)[i as int],
{
    bits.bits.data[0]
}

/// Pending port events.
///
/// Ports are numbered from 0 to 31; a port is pending when its bit is set.
#[derive(Copy, Clone)]
pub struct PortPending(PortPendingVec);

impl PartialEq for PortPending {
    fn eq(&self, other: &Self) -> (r: bool) {
        bits_eq(&self.0, &other.0)
    }
}

impl vstd::std_specs::cmp::PartialEqSpecImpl for PortPending {
    open spec fn obeys_eq_spec() -> bool {
        true
    }

    open spec fn eq_spec(&self, other: &Self) -> bool {
        self.bits() == other.bits()
    }
}

impl Eq for PortPending {
}

impl PortPending {
    #[verifier::type_invariant]
    spec fn wf(self) -> bool {
        port_bits(self.0).len() == 32
    }

    /// The pending flag of each port.
    pub closed spec fn bits(self) -> Seq<bool> {
        port_bits(self.0)
    }

    /// The set of pending ports.
    pub open spec fn ports(self) -> Set<int> {
        Set::new(|i: int| 0 <= i < 32 && self.bits()[i])
    }

    /// Creates a new PortPending with no pending ports.
    pub fn none() -> (r: Self)
        ensures
            r.bits() == Seq::new(32, |i: int| false),
    {
        PortPending(bits_zero())
    }

    /// Returns true if there are no pending ports.
    pub fn is_none(&self) -> (r: bool)
        ensures
            r == (self.bits() == Seq::new(32, |i: int| false)),
    {
        let zero = bits_zero();
        bits_eq(&self.0, &zero)
    }

    /// Marks the given port as pending.
    pub fn pend_port(&mut self, port: usize)
        requires
            port < 32,
        ensures
            final(self).bits() == old(self).bits().update(port as int, true),
    {
        proof {
            use_type_invariant(&*self);
        }
        let mut bits = self.0;
        bits_set(&mut bits, port, true);
        *self = PortPending(bits);
    }

    /// Marks every port of `ports` as pending.
    pub fn pend_ports(&mut self, ports: &[usize])
        requires
            forall|k: int| 0 <= k < ports.len() ==> ports[k] < 32,
        ensures
            final(self).bits().len() == 32,
            forall|i: int|
                0 <= i < 32 ==> #[trigger] final(self).bits()[i] == (old(self).bits()[i] || ports@.contains(i as usize)),
    {
        proof {
            use_type_invariant(&*self);
        }
        let ghost start = self.bits();
        let mut k: usize = 0;
        while k < ports.len()
            invariant
                k <= ports.len(),
                forall|m: int| 0 <= m < ports.len() ==> ports[m] < 32,
                self.bits().len() == 32,
                start.len() == 32,
                forall|i: int|
                    0 <= i < 32 ==> #[trigger] self.bits()[i] == (start[i] || exists|m: int|
                        0 <= m < k && #[trigger] ports[m] == i as usize),
            decreases ports.len() - k,
        {
            let p = ports[k];
            self.pend_port(p);
            proof {
                assert forall|i: int| 0 <= i < 32 implies #[trigger] self.bits()[i] == (start[i] || exists|m: int|
                    0 <= m < k + 1 && #[trigger] ports[m] == i as usize) by {
                    if i == p as int {
                        assert(ports[k as int] == i as usize);
                    }
                }
            }
            k = k + 1;
        }
        proof {
            assert forall|i: int| 0 <= i < 32 implies #[trigger] self.bits()[i] == (start[i]
                || ports@.contains(i as usize)) by {
                if ports@.contains(i as usize) {
                    let m = choose|m: int| 0 <= m < ports@.len() && ports@[m] == i as usize;
                    assert(ports[m] == i as usize);
                }
            }
        }
    }

    /// Clears the pending status of the given port.
    pub fn clear_port(&mut self, port: usize)
        requires
            port < 32,
        ensures
            final(self).bits() == old(self).bits().update(port as int, false),
    {
        proof {
            use_type_invariant(&*self);
        }
        let mut bits = self.0;
        bits_set(&mut bits, port, false);
        *self = PortPending(bits);
    }

    /// Returns true if the given port is pending.
    pub fn is_pending(&self, port: usize) -> (r: bool)
        requires
            port < 32,
        ensures
            r == self.bits()[port as int],
    {
        proof {
            use_type_invariant(self);
        }
        bits_get(&self.0, port)
    }

    /// Returns a combination of the current pending ports and other.
    pub fn union(&self, other: PortPending) -> (r: PortPending)
        ensures
            r.bits() == Seq::new(32, |i: int| self.bits()[i] || other.bits()[i]),
    {
        proof {
            use_type_invariant(self);
            use_type_invariant(&other);
        }
        PortPending(bits_or(&self.0, &other.0))
    }

    /// Returns the number of ports tracked.
    pub fn len(&self) -> (r: usize)
        ensures
            r == 32,
    {
        bits_len(&self.0)
    }

    /// Returns the pending flags packed into a `u32`, port `i` at bit `i`.
    pub fn to_u32(self) -> (r: u32)
        ensures
            forall|i: u32| i < 32 ==> (((r >> i) & 1u32) == 1u32) == #[trigger] self.bits()[i as int],
    {
        proof {
            use_type_invariant(&self);
        }
        bits_word(&self.0)
    }

    /// Creates a PortPending with exactly the ports of `ports` pending.
    pub fn from_ports(ports: &[usize]) -> (r: Self)
        requires
            forall|k: int| 0 <= k < ports.len() ==> ports[k] < 32,
        ensures
            forall|i: int| 0 <= i < 32 ==> #[trigger] r.bits()[i] == ports@.contains(i as usize),
    {
        let mut flags = PortPending::none();
        flags.pend_ports(ports);
        flags
    }

    /// Returns an iterator over the pending ports, in increasing order.
    pub fn into_iter(self) -> (r: PortPendingIter)
        ensures
            r.flags() == self.bits(),
            r.index() == 0,
    {
        PortPendingIter { flags: self, index: 0 }
    }
}

/// An iterator over the pending port event flags.
#[derive(Copy, Clone)]
pub struct PortPendingIter {
    /// The flags being iterated over
    flags: PortPending,
    /// The current index in the flags
    index: usize,
}

/// The first pending port at or after `from`, if any.
pub open spec fn first_pending_from(bits: Seq<bool>, from: int) -> Option<int>
    decreases bits.len() - from,
{
    if from >= bits.len() || from < 0 {
        None
    } else if bits[from] {
        Some(from)
    } else {
        first_pending_from(bits, from + 1)
    }
}

/// The port found by [`first_pending_from`] is pending, is at or after `from`, and no pending
/// port lies between.
pub proof fn lemma_first_pending_from(bits: Seq<bool>, from: int)
    requires
        0 <= from,
    ensures
        match first_pending_from(bits, from) {
            Some(p) => from <= p < bits.len() && bits[p] && forall|q: int| from <= q < p ==> !#[trigger] bits[q],
            None => forall|q: int| from <= q < bits.len() ==> !#[trigger] bits[q],
        },
    decreases bits.len() - from,
{
    if from < bits.len() && !bits[from] {
        lemma_first_pending_from(bits, from + 1);
    }
}

impl PortPendingIter {
    /// The flags not yet yielded.
    pub closed spec fn flags(self) -> Seq<bool> {
        self.flags.bits()
    }

    /// The position the next search starts at.
    pub closed spec fn index(self) -> int {
        self.index as int
    }

    /// Yields the next pending port at or after the current position and clears it.
    pub fn next(&mut self) -> (r: Option<usize>)
        ensures
            r == match first_pending_from(old(self).flags(), old(self).index()) {
                Some(p) => Some(p as usize),
                None => None::<usize>,
            },
            final(self).flags() == match r {
                Some(p) => old(self).flags().update(p as int, false),
                None => old(self).flags(),
            },
            final(self).index() == match r {
                Some(p) => p + 1,
                None => if old(self).index() <= 32 { 32 } else { old(self).index() },
            },
    {
        proof {
            use_type_invariant(&self.flags);
        }
        let ghost start = self.index as int;
        let len = self.flags.len();
        while self.index < len
            invariant
                len == 32,
                self.flags == old(self).flags,
                self.flags.bits().len() == 32,
                start == old(self).index(),
                start <= self.index,
                self.index <= 32 || self.index == start,
                first_pending_from(self.flags.bits(), start) == first_pending_from(self.flags.bits(), self.index as int),
            decreases len - self.index,
        {
            let port_index = self.index;
            self.index += 1;
            if self.flags.is_pending(port_index) {
                self.flags.clear_port(port_index);
                return Some(port_index);
            }
        }
        None
    }
}

} // verus!
