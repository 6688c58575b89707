//! Venty and Veazy: both speak the same protocol over a single control
//! characteristic, with fixed-size command buffers and status notifications.
use vstd::prelude::*;
use crate::codec::le_u16;
use crate::device::{DeviceState, HeaterMode};

verus! {

/// Length of every command buffer written to the control characteristic.
pub const VENTY_COMMAND_LEN: usize = 20;

/// Command byte that writes settings (first byte of the buffer).
pub const VENTY_CMD_WRITE: u8 = 0x01;

/// Command byte of the second kind of status notification.
pub const VENTY_CMD_STATUS: u8 = 0x05;

/// Mask bit selecting the target temperature in a write command.
pub const VENTY_MASK_SET_TEMPERATURE: u8 = 0x02;

/// Mask bit selecting the heater mode in a write command.
pub const VENTY_MASK_HEATER: u8 = 0x20;

/// The command bytes written, in this order, when a connection is set up.
pub open spec fn venty_init_sequence() -> Seq<u8> {
    seq![0x02u8, 0x1Du8, 0x01u8, 0x04u8]
}

/// Apply `writes` in order to `buf`: each pair sets the byte at its index.
pub open spec fn apply_writes(buf: Seq<u8>, writes: Seq<(usize, u8)>) -> Seq<u8>
    decreases writes.len(),
{
    if writes.len() == 0 {
        buf
    } else {
        apply_writes(buf, writes.drop_last()).update(writes.last().0 as int, writes.last().1)
    }
}

/// A command buffer: `VENTY_COMMAND_LEN` bytes, the command byte first, the
/// mask second, zero elsewhere, then the payload bytes set at their indices
/// (a later pair wins over an earlier one at the same index).
pub open spec fn spec_venty_command(cmd: u8, mask: u8, writes: Seq<(usize, u8)>) -> Seq<u8> {
    apply_writes(seq![cmd, mask] + Seq::new(18, |i: int| 0u8), writes)
}

/// Every index of `writes` falls inside a command buffer.
pub open spec fn writes_in_buffer(writes: Seq<(usize, u8)>) -> bool {
    forall|k: int| 0 <= k < writes.len() ==> (#[trigger] writes[k]).0 < VENTY_COMMAND_LEN
}

proof fn lemma_apply_one_write(buf: Seq<u8>, a: (usize, u8))
    ensures
        apply_writes(buf, seq![a]) == buf.update(a.0 as int, a.1),
{
    assert(seq![a].drop_last() =~= Seq::<(usize, u8)>::empty());
    reveal_with_fuel(apply_writes, 2);
}

proof fn lemma_apply_two_writes(buf: Seq<u8>, a: (usize, u8), b: (usize, u8))
    ensures
        apply_writes(buf, seq![a, b]) == buf.update(a.0 as int, a.1).update(b.0 as int, b.1),
{
    assert(seq![a, b].drop_last() =~= seq![a]);
    lemma_apply_one_write(buf, a);
}

/// A heater buffer holds its mode byte at index 11 and is 20 bytes long.
pub proof fn lemma_heater_writes(base: Seq<u8>, mode: u8)
    requires
        base.len() == 20,
    ensures
        apply_writes(base, seq![(11usize, mode)]).len() == 20,
        apply_writes(base, seq![(11usize, mode)])[11] == mode,
{
    lemma_apply_one_write(base, (11usize, mode));
}

/// A set-target buffer holds its two bytes at indices 4 and 5, and keeps
/// the first two bytes of the base.
pub proof fn lemma_target_writes_bytes(base: Seq<u8>, low: u8, high: u8)
    requires
        base.len() == 20,
    ensures
        ({
            let buf = apply_writes(base, seq![(4usize, low), (5usize, high)]);
            buf.len() == 20 && buf[4] == low && buf[5] == high && buf[0] == base[0] && buf[1]
                == base[1]
        }),
{
    lemma_apply_two_writes(base, (4usize, low), (5usize, high));
}

/// Build a command buffer from the command byte, the mask and the payload
/// bytes given as (index, value) pairs.
pub fn build_venty_command(cmd: u8, mask: u8, writes: &[(usize, u8)]) -> (buf: Vec<u8>)
    requires
        writes_in_buffer(writes@),
    ensures
        buf@ == spec_venty_command(cmd, mask, writes@),
        buf@.len() == VENTY_COMMAND_LEN,
{
    let mut buf: Vec<u8> = Vec::new();
    buf.push(cmd);
    buf.push(mask);
    let mut j: usize = 2;
    while j < VENTY_COMMAND_LEN
        invariant
            2 <= j <= VENTY_COMMAND_LEN,
            buf@ == seq![cmd, mask] + Seq::new((j - 2) as nat, |i: int| 0u8),
        decreases VENTY_COMMAND_LEN - j,
    {
        buf.push(0);
        j = j + 1;
        assert(buf@ =~= seq![cmd, mask] + Seq::new((j - 2) as nat, |i: int| 0u8));
    }
    let ghost base = buf@;
    assert(writes@.take(0) =~= Seq::<(usize, u8)>::empty());
    let mut k: usize = 0;
    while k < writes.len()
        invariant
            k <= writes@.len(),
            writes_in_buffer(writes@),
            base == seq![cmd, mask] + Seq::new(18, |i: int| 0u8),
            buf@ == apply_writes(base, writes@.take(k as int)),
            buf@.len() == VENTY_COMMAND_LEN,
        decreases writes@.len() - k,
    {
        let (idx, val) = writes[k];
        assert(writes@[k as int].0 < VENTY_COMMAND_LEN);
        buf.set(idx, val);
        assert(writes@.take(k + 1).drop_last() =~= writes@.take(k as int));
        k = k + 1;
    }
    assert(writes@.take(writes@.len() as int) =~= writes@);
    buf
}

/// The command that sets the target temperature, in tenths of a degree
/// Celsius: bytes 4 and 5 carry it in little-endian order.
pub fn venty_set_target_command(raw: u16) -> (buf: Vec<u8>)
    ensures
        buf@ == spec_venty_command(
            VENTY_CMD_WRITE,
            VENTY_MASK_SET_TEMPERATURE,
            seq![(4usize, (raw % 256) as u8), (5usize, (raw / 256) as u8)],
        ),
        buf@.len() == VENTY_COMMAND_LEN,
        buf@[0] == VENTY_CMD_WRITE,
        buf@[1] == VENTY_MASK_SET_TEMPERATURE,
        le_u16(buf@[4], buf@[5]) == raw,
        forall|i: int| 2 <= i < VENTY_COMMAND_LEN && i != 4 && i != 5 ==> buf@[i] == 0,
{
    let low = (raw % 256) as u8;
    let high = (raw / 256) as u8;
    let writes: Vec<(usize, u8)> = vec![(4, low), (5, high)];
    assert(writes@ =~= seq![(4usize, low), (5usize, high)]);
    let buf = build_venty_command(VENTY_CMD_WRITE, VENTY_MASK_SET_TEMPERATURE, writes.as_slice());
    proof {
        let base = seq![VENTY_CMD_WRITE, VENTY_MASK_SET_TEMPERATURE] + Seq::new(18, |i: int| 0u8);
        lemma_apply_two_writes(base, (4usize, low), (5usize, high));
        assert(buf@ == base.update(4, low).update(5, high));
        assert forall|i: int| 2 <= i < VENTY_COMMAND_LEN && i != 4 && i != 5 implies buf@[i]
            == 0 by {
            assert(base[i] == 0);
        }
    }
    buf
}

/// The command that switches the heater: mode 1 (normal) to turn it on,
/// mode 0 (off) to turn it off, carried in byte 11.
pub fn venty_heater_command(on: bool) -> (buf: Vec<u8>)
    ensures
        buf@ == spec_venty_command(
            VENTY_CMD_WRITE,
            VENTY_MASK_HEATER,
            seq![(11usize, if on { 1u8 } else { 0u8 })],
        ),
        buf@.len() == VENTY_COMMAND_LEN,
        buf@[0] == VENTY_CMD_WRITE,
        buf@[1] == VENTY_MASK_HEATER,
        buf@[11] == (if on { 1u8 } else { 0u8 }),
        forall|i: int| 2 <= i < VENTY_COMMAND_LEN && i != 11 ==> buf@[i] == 0,
{
    let mode: u8 = if on { 1 } else { 0 };
    let writes: Vec<(usize, u8)> = vec![(11, mode)];
    assert(writes@ =~= seq![(11usize, mode)]);
    let buf = build_venty_command(VENTY_CMD_WRITE, VENTY_MASK_HEATER, writes.as_slice());
    proof {
        let base = seq![VENTY_CMD_WRITE, VENTY_MASK_HEATER] + Seq::new(18, |i: int| 0u8);
        lemma_apply_one_write(base, (11usize, mode));
        assert forall|i: int| 2 <= i < VENTY_COMMAND_LEN && i != 11 implies buf@[i] == 0 by {
            assert(base[i] == 0);
        }
    }
    buf
}

/// The command that sets the heater mode: its wire byte in byte 11.
pub fn venty_heater_mode_command(mode: HeaterMode) -> (buf: Vec<u8>)
    ensures
        buf@ == spec_venty_command(VENTY_CMD_WRITE, VENTY_MASK_HEATER, seq![(11usize, mode.spec_raw())]),
        buf@.len() == VENTY_COMMAND_LEN,
        buf@[0] == VENTY_CMD_WRITE,
        buf@[1] == VENTY_MASK_HEATER,
        buf@[11] == mode.spec_raw(),
        forall|i: int| 2 <= i < VENTY_COMMAND_LEN && i != 11 ==> buf@[i] == 0,
{
    let b = mode.raw();
    let writes: Vec<(usize, u8)> = vec![(11, b)];
    assert(writes@ =~= seq![(11usize, b)]);
    let buf = build_venty_command(VENTY_CMD_WRITE, VENTY_MASK_HEATER, writes.as_slice());
    proof {
        let base = seq![VENTY_CMD_WRITE, VENTY_MASK_HEATER] + Seq::new(18, |i: int| 0u8);
        lemma_apply_one_write(base, (11usize, b));
        assert forall|i: int| 2 <= i < VENTY_COMMAND_LEN && i != 11 implies buf@[i] == 0 by {
            assert(base[i] == 0);
        }
    }
    buf
}

/// The commands written when a connection is set up: for each byte of the
/// init sequence (0x02, 0x1D, 0x01, 0x04), a buffer with that command byte,
/// mask 0 and no payload.
pub fn venty_init_commands() -> (cmds: Vec<Vec<u8>>)
    ensures
        cmds@.len() == 4,
        forall|k: int|
            0 <= k < 4 ==> (#[trigger] cmds@[k])@ == spec_venty_command(
                venty_init_sequence()[k],
                0,
                Seq::empty(),
            ),
{
    let seq_bytes: Vec<u8> = vec![0x02, 0x1D, 0x01, 0x04];
    assert(seq_bytes@ =~= venty_init_sequence());
    let empty: Vec<(usize, u8)> = Vec::new();
    let mut cmds: Vec<Vec<u8>> = Vec::new();
    let mut k: usize = 0;
    while k < 4
        invariant
            k <= 4,
            seq_bytes@ == venty_init_sequence(),
            empty@ == Seq::<(usize, u8)>::empty(),
            cmds@.len() == k,
            forall|j: int|
                0 <= j < k ==> (#[trigger] cmds@[j])@ == spec_venty_command(
                    venty_init_sequence()[j],
                    0,
                    Seq::empty(),
                ),
        decreases 4 - k,
    {
        let c = build_venty_command(seq_bytes[k], 0, empty.as_slice());
        cmds.push(c);
        k = k + 1;
    }
    cmds
}

/// The connection set-up writes four buffers whose command bytes are, in
/// order, 0x02, 0x1D, 0x01 and 0x04; each is 20 bytes long with everything
/// after the command byte zero.
pub proof fn lemma_venty_init_buffers(k: int)
    requires
        0 <= k < 4,
    ensures
        ({
            let buf = spec_venty_command(venty_init_sequence()[k], 0, Seq::empty());
            &&& buf.len() == 20
            &&& buf[0] == seq![0x02u8, 0x1Du8, 0x01u8, 0x04u8][k]
            &&& forall|i: int| 1 <= i < 20 ==> buf[i] == 0
        }),
{
    reveal_with_fuel(apply_writes, 1);
}

/// A notification is a status report when its command byte is 0x01 or 0x05
/// and it carries at least 15 bytes.
pub open spec fn is_venty_status(data: Seq<u8>) -> bool {
    data.len() >= 15 && (data[0] == VENTY_CMD_WRITE || data[0] == VENTY_CMD_STATUS)
}

/// What a notification does to the state, and whether the new state is to be
/// published. A status report sets the current temperature (bytes 2–3,
/// little-endian tenths), the target temperature (bytes 4–5, little-endian
/// tenths), the heater (byte 11 non-zero), the setpoint flag (bit 1 of
/// byte 14) and clears the pump (these devices have none); any other
/// notification changes nothing and publishes nothing.
pub open spec fn spec_venty_notification(state: DeviceState, data: Seq<u8>) -> (DeviceState, bool) {
    if is_venty_status(data) {
        (
            DeviceState {
                current_temp: Some(le_u16(data[2], data[3]) as u32),
                target_temp: Some(le_u16(data[4], data[5]) as u32),
                heater_on: data[11] > 0,
                setpoint_reached: (data[14] & 0x02u8) != 0,
                pump_on: false,
                ..state
            },
            true,
        )
    } else {
        (state, false)
    }
}

/// Update the state from a Venty/Veazy notification; returns whether the
/// state is to be published to subscribers.
pub fn handle_venty_notification(state: &mut DeviceState, data: &[u8]) -> (publish: bool)
    ensures
        (*final(state), publish) == spec_venty_notification(*old(state), data@),
{
    if data.len() < 15 {
        return false;
    }
    let cmd_id = data[0];
    if cmd_id == VENTY_CMD_WRITE || cmd_id == VENTY_CMD_STATUS {
        let current: u16 = data[2] as u16 + 256 * (data[3] as u16);
        let target: u16 = data[4] as u16 + 256 * (data[5] as u16);
        state.current_temp = Some(current as u32);
        state.target_temp = Some(target as u32);
        state.heater_on = data[11] > 0;
        state.setpoint_reached = (data[14] & 0x02) != 0;
        state.pump_on = false;
        true
    } else {
        false
    }
}

/// Settings bits of the status byte 14.
#[derive(Debug, Clone, Copy, PartialEq, Eq)]
pub struct VentySettings {
    /// The byte as received.
    pub raw: u8,
    /// Bit 0 clear: temperatures shown in Celsius.
    pub celsius: bool,
    /// Bit 1 set: the setpoint has been reached.
    pub setpoint_reached: bool,
    /// Bit 6 set: vibration enabled.
    pub vibration: bool,
}

/// Every field a Venty/Veazy notification carries, each present when the
/// notification is long enough to hold it.
#[derive(Debug, Clone, Copy, PartialEq, Eq)]
pub struct VentyNotification {
    /// Byte 0.
    pub cmd_id: u8,
    /// Byte 1.
    pub mask: Option<u8>,
    /// Bytes 2–3, little-endian: current temperature in tenths of a degree.
    pub current_temp: Option<u16>,
    /// Bytes 4–5, little-endian: target temperature in tenths of a degree.
    pub target_temp: Option<u16>,
    /// Byte 6: boost offset in degrees.
    pub boost_temp: Option<u8>,
    /// Byte 7: super-boost offset in degrees.
    pub super_boost_temp: Option<u8>,
    /// Byte 8: battery level in percent.
    pub battery: Option<u8>,
    /// Bytes 9–10, little-endian: auto-shutdown timer in seconds.
    pub shutdown_timer: Option<u16>,
    /// Byte 11: heater mode byte (see `HeaterMode::from_raw`).
    pub heater_mode: Option<u8>,
    /// Byte 13: charger state.
    pub charger: Option<u8>,
    /// Byte 14: settings bits.
    pub settings: Option<VentySettings>,
}

/// The settings bits of a byte.
pub open spec fn spec_venty_settings(b: u8) -> VentySettings {
    VentySettings {
        raw: b,
        celsius: (b & 0x01u8) == 0,
        setpoint_reached: (b & 0x02u8) != 0,
        vibration: (b & 0x40u8) != 0,
    }
}

/// The byte at `i`, when there is one.
pub open spec fn byte_at(data: Seq<u8>, i: int) -> Option<u8> {
    if i < data.len() {
        Some(data[i])
    } else {
        None
    }
}

/// The little-endian 16-bit value at `i` and `i + 1`, when both are there.
pub open spec fn u16_at(data: Seq<u8>, i: int) -> Option<u16> {
    if i + 1 < data.len() {
        Some(le_u16(data[i], data[i + 1]) as u16)
    } else {
        None
    }
}

/// The fields of a non-empty notification.
pub open spec fn spec_decode_venty_notification(data: Seq<u8>) -> Option<VentyNotification> {
    if data.len() == 0 {
        None
    } else {
        Some(
            VentyNotification {
                cmd_id: data[0],
                mask: byte_at(data, 1),
                current_temp: u16_at(data, 2),
                target_temp: u16_at(data, 4),
                boost_temp: byte_at(data, 6),
                super_boost_temp: byte_at(data, 7),
                battery: byte_at(data, 8),
                shutdown_timer: u16_at(data, 9),
                heater_mode: byte_at(data, 11),
                charger: byte_at(data, 13),
                settings: if data.len() >= 15 {
                    Some(spec_venty_settings(data[14]))
                } else {
                    None
                },
            },
        )
    }
}

/// Decode the settings bits of a status byte.
pub fn decode_venty_settings(b: u8) -> (s: VentySettings)
    ensures
        s == spec_venty_settings(b),
{
    VentySettings {
        raw: b,
        celsius: (b & 0x01) == 0,
        setpoint_reached: (b & 0x02) != 0,
        vibration: (b & 0x40) != 0,
    }
}

fn byte_at_exec(data: &[u8], i: usize) -> (b: Option<u8>)
    ensures
        b == byte_at(data@, i as int),
{
    if i < data.len() {
        Some(data[i])
    } else {
        None
    }
}

fn u16_at_exec(data: &[u8], i: usize) -> (v: Option<u16>)
    requires
        i < 100,
    ensures
        v == u16_at(data@, i as int),
{
    if i + 1 < data.len() {
        Some(data[i] as u16 + 256 * (data[i + 1] as u16))
    } else {
        None
    }
}

/// Decode every field of a Venty/Veazy notification that it is long enough
/// to carry; `None` for an empty notification.
pub fn decode_venty_notification(data: &[u8]) -> (n: Option<VentyNotification>)
    ensures
        n == spec_decode_venty_notification(data@),
{
    if data.len() == 0 {
        return None;
    }
    let settings = if data.len() >= 15 {
        Some(decode_venty_settings(data[14]))
    } else {
        None
    };
    Some(
        VentyNotification {
            cmd_id: data[0],
            mask: byte_at_exec(data, 1),
            current_temp: u16_at_exec(data, 2),
            target_temp: u16_at_exec(data, 4),
            boost_temp: byte_at_exec(data, 6),
            super_boost_temp: byte_at_exec(data, 7),
            battery: byte_at_exec(data, 8),
            shutdown_timer: u16_at_exec(data, 9),
            heater_mode: byte_at_exec(data, 11),
            charger: byte_at_exec(data, 13),
            settings,
        },
    )
}

/// Handling the same notification twice leaves the state as handling it
/// once does.
pub proof fn lemma_venty_notification_idempotent(state: DeviceState, data: Seq<u8>)
    ensures
        spec_venty_notification(spec_venty_notification(state, data).0, data).0
            == spec_venty_notification(state, data).0,
{
}

/// A notification changes only the two temperatures, the heater, the
/// setpoint flag and the pump; the fan and the activity word are left as
/// they were.
pub proof fn lemma_venty_notification_frame(state: DeviceState, data: Seq<u8>)
    ensures
        ({
            let next = spec_venty_notification(state, data).0;
            next.fan_on == state.fan_on
                && next.raw_activity == state.raw_activity
        }),
{
}

/// A status report carries both temperatures: after it, the current and the
/// target temperature are known, as the values in bytes 2–3 and 4–5.
pub proof fn lemma_venty_status_reports_temperatures(state: DeviceState, data: Seq<u8>)
    requires
        is_venty_status(data),
    ensures
        spec_venty_notification(state, data).0.current_temp == Some(
            le_u16(data[2], data[3]) as u32,
        ),
        spec_venty_notification(state, data).0.target_temp == Some(le_u16(data[4], data[5]) as u32),
        spec_venty_notification(state, data).1,
{
}

/// Status reports and set-target commands put the target temperature in the
/// same place: a set-target buffer read as a status report yields the
/// temperature it sets.
pub proof fn lemma_venty_target_layout(state: DeviceState, raw: u16)
    ensures
        ({
            let cmd = spec_venty_command(
                VENTY_CMD_WRITE,
                VENTY_MASK_SET_TEMPERATURE,
                seq![(4usize, (raw % 256) as u8), (5usize, (raw / 256) as u8)],
            );
            spec_venty_notification(state, cmd).0.target_temp == Some(raw as u32)
        }),
{
    let low = (raw % 256) as u8;
    let high = (raw / 256) as u8;
    let base = seq![VENTY_CMD_WRITE, VENTY_MASK_SET_TEMPERATURE] + Seq::new(18, |i: int| 0u8);
    lemma_apply_two_writes(base, (4usize, low), (5usize, high));
}

/// The flags of a settings byte are its bits: Celsius when bit 0 is clear,
/// setpoint reached when bit 1 is set, vibration when bit 6 is set; each
/// flag depends on its own bit only.
pub proof fn lemma_venty_settings_bits(b: u8)
    ensures
        spec_venty_settings(b).raw == b,
        spec_venty_settings(b).celsius == (b % 2 == 0),
        spec_venty_settings(b).setpoint_reached == ((b / 2) % 2 == 1),
        spec_venty_settings(b).vibration == ((b / 64) % 2 == 1),
{
    assert(((b & 0x01u8) == 0) == (b % 2 == 0)) by (bit_vector);
    assert(((b & 0x02u8) != 0) == ((b / 2) % 2 == 1)) by (bit_vector);
    assert(((b & 0x40u8) != 0) == ((b / 64) % 2 == 1)) by (bit_vector);
}

/// What a status report does, field by field: the current temperature is
/// bytes 2 + 256 · byte 3, the target is byte 4 + 256 · byte 5 (tenths of a
/// degree), the heater is on for every non-zero mode byte 11 (normal, boost
/// and superboost alike), the setpoint flag is bit 1 of byte 14, the pump is
/// off, the fan and activity word are untouched, and the state is published.
/// Any other notification leaves the state as it was and is not published.
pub proof fn lemma_venty_status_fields(state: DeviceState, data: Seq<u8>)
    ensures
        ({
            let (next, publish) = spec_venty_notification(state, data);
            if data.len() >= 15 && (data[0] == 0x01 || data[0] == 0x05) {
                &&& publish
                &&& next.current_temp == Some((data[2] + 256 * data[3]) as u32)
                &&& next.target_temp == Some((data[4] + 256 * data[5]) as u32)
                &&& next.heater_on == (data[11] != 0)
                &&& next.setpoint_reached == ((data[14] / 2) % 2 == 1)
                &&& !next.pump_on
                &&& next.fan_on == state.fan_on
                &&& next.raw_activity == state.raw_activity
            } else {
                !publish && next == state
            }
        }),
{
    if data.len() >= 15 {
        let b = data[14];
        assert(((b & 0x02u8) != 0) == ((b / 2) % 2 == 1)) by (bit_vector);
    }
}

/// What a decoded notification holds, in terms of its bytes: nothing for an
/// empty notification; otherwise byte 0 as the command, and each further
/// field exactly when the notification reaches its last byte.
pub proof fn lemma_venty_decode_fields(data: Seq<u8>)
    ensures
        data.len() == 0 ==> spec_decode_venty_notification(data) is None,
        data.len() > 0 ==> ({
            let n = spec_decode_venty_notification(data).unwrap();
            &&& n.cmd_id == data[0]
            &&& n.mask == (if data.len() >= 2 { Some(data[1]) } else { None })
            &&& n.current_temp == (if data.len() >= 4 {
                Some((data[2] + 256 * data[3]) as u16)
            } else {
                None
            })
            &&& n.target_temp == (if data.len() >= 6 {
                Some((data[4] + 256 * data[5]) as u16)
            } else {
                None
            })
            &&& n.boost_temp == (if data.len() >= 7 { Some(data[6]) } else { None })
            &&& n.super_boost_temp == (if data.len() >= 8 { Some(data[7]) } else { None })
            &&& n.battery == (if data.len() >= 9 { Some(data[8]) } else { None })
            &&& n.shutdown_timer == (if data.len() >= 11 {
                Some((data[9] + 256 * data[10]) as u16)
            } else {
                None
            })
            &&& n.heater_mode == (if data.len() >= 12 { Some(data[11]) } else { None })
            &&& n.charger == (if data.len() >= 14 { Some(data[13]) } else { None })
            &&& (data.len() >= 15 <==> n.settings is Some)
            &&& data.len() >= 15 ==> ({
                let st = n.settings.unwrap();
                &&& st.raw == data[14]
                &&& st.celsius == (data[14] % 2 == 0)
                &&& st.setpoint_reached == ((data[14] / 2) % 2 == 1)
                &&& st.vibration == ((data[14] / 64) % 2 == 1)
            })
        }),
{
    if data.len() >= 15 {
        lemma_venty_settings_bits(data[14]);
    }
}

} // verus!
