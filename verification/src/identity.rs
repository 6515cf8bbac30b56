//! Pin identities.
//!
//! A pin is named by one byte, `port * 32 + index`: bit 5 selects the port
//! (0 for bank A, 1 for bank B) and the low five bits give the pin's position
//! inside the registers of that port. The identity is the only state a pin
//! handle carries; every register bit it touches is derived from it.

use vstd::prelude::*;

verus! {

/// Number of GPIO ports.
pub const PORTS: u8 = 2;

/// Number of pins that one port addresses.
pub const PINS_PER_PORT: u8 = 32;

/// Number of identities; the valid ones are `0..IDENTITIES`.
pub const IDENTITIES: u8 = 64;

/// Lowest pin index of port 1 whose interrupt is routed to another line.
pub const FIRST_REMAPPED: u8 = 22;

/// Highest pin index of port 1 whose interrupt is routed to another line.
pub const LAST_REMAPPED: u8 = 23;

/// Distance between a remapped pin's index and its interrupt line.
pub const REMAP_SHIFT: u8 = 14;

/// Whether `id` names a pin of one of the two ports.
pub open spec fn valid(id: u8) -> bool {
    id < IDENTITIES
}

/// The identity of pin `index` of port `port`.
pub open spec fn identity_of(port: u8, index: u8) -> u8 {
    (port * PINS_PER_PORT + index) as u8
}

/// The port that `id` belongs to.
pub open spec fn port_of(id: u8) -> u8 {
    id / PINS_PER_PORT
}

/// The position of `id` inside the registers of its port.
pub open spec fn index_of(id: u8) -> u8 {
    id % PINS_PER_PORT
}

/// Whether the interrupt of `id` is routed through the alternate selector:
/// true of pins 22 and 23 of port 1 and of no other pin.
pub open spec fn remapped(id: u8) -> bool {
    port_of(id) == 1 && FIRST_REMAPPED <= index_of(id) <= LAST_REMAPPED
}

/// The bit position of `id` in the interrupt registers of its port: 8 and 9
/// for the two remapped pins, the pin index for every other pin.
pub open spec fn interrupt_line(id: u8) -> u8 {
    if remapped(id) {
        (index_of(id) - REMAP_SHIFT) as u8
    } else {
        index_of(id)
    }
}

/// Encoding a port and an index and decoding the result gives the port and
/// the index back.
pub proof fn lemma_identity_round_trip(port: u8, index: u8)
    requires
        port < PORTS,
        index < PINS_PER_PORT,
    ensures
        valid(identity_of(port, index)),
        port_of(identity_of(port, index)) == port,
        index_of(identity_of(port, index)) == index,
{
}

/// Decoding an identity and encoding the result gives the identity back, so
/// two identities that differ differ in port or in index. A valid identity
/// decodes to a port and an index that exist.
pub proof fn lemma_identity_decoded(id: u8)
    ensures
        identity_of(port_of(id), index_of(id)) == id,
        index_of(id) < PINS_PER_PORT,
        valid(id) <==> port_of(id) < PORTS,
{
}

/// Pins 22 and 23 of port 1 have the interrupt lines 8 and 9; the interrupt
/// line of every other pin is its index.
pub proof fn lemma_interrupt_line(id: u8)
    requires
        valid(id),
    ensures
        interrupt_line(identity_of(1, 22)) == 8,
        interrupt_line(identity_of(1, 23)) == 9,
        remapped(id) <==> id == identity_of(1, 22) || id == identity_of(1, 23),
        !remapped(id) ==> interrupt_line(id) == index_of(id),
        interrupt_line(id) < PINS_PER_PORT,
{
}

/// Builds the identity of pin `index` of port `port`.
pub fn encode(port: u8, index: u8) -> (id: u8)
    requires
        port < PORTS,
        index < PINS_PER_PORT,
    ensures
        id == identity_of(port, index),
        valid(id),
        port_of(id) == port,
        index_of(id) == index,
{
    port * PINS_PER_PORT + index
}

/// Extracts the port of an identity.
pub fn port_number(id: u8) -> (port: u8)
    ensures
        port == port_of(id),
        valid(id) ==> port < PORTS,
{
    assert(id >> 5 == id / 32) by (bit_vector);
    id >> 5
}

/// Extracts the pin index of an identity.
pub fn pin_index(id: u8) -> (index: u8)
    ensures
        index == index_of(id),
        index < PINS_PER_PORT,
{
    assert(id & 0x1f == id % 32) by (bit_vector);
    id & 0x1f
}

/// Tells whether the interrupt of `id` goes through the alternate selector.
pub fn is_remapped(id: u8) -> (yes: bool)
    ensures
        yes == remapped(id),
{
    let index: u8 = pin_index(id);
    port_number(id) == 1 && FIRST_REMAPPED <= index && index <= LAST_REMAPPED
}

/// Computes the interrupt line of `id`.
pub fn line_of(id: u8) -> (line: u8)
    ensures
        line == interrupt_line(id),
        line < PINS_PER_PORT,
{
    let index: u8 = pin_index(id);
    if is_remapped(id) {
        index - REMAP_SHIFT
    } else {
        index
    }
}

} // verus!
