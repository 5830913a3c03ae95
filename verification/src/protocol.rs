//! The device protocol: identification, configuration, and the atomic
//! bulk register read.
//!
//! Every contract here is stated over the transport's ghost history
//! ([`Transport::ops`] and [`Transport::reads`]), so it pins down the
//! exact bus traffic a call produces: which bytes are written, in
//! which order, and that each register block is fetched with exactly
//! one `write` (register select) followed by exactly one `read` — the
//! hardware latches the block only for the duration of a single
//! pointer-addressed read, so a split read could tear a 16-bit field
//! across two samples.

use vstd::prelude::*;
use crate::decode::{decodes_block, decode_block, RawSample, SAMPLE_LEN};
use crate::transport::{BusOp, MpuError, Transport, TransportError};

verus! {

/// Address of the read-only WhoAmI identity register.
pub const WHO_AM_I_REG: u8 = 0x75;

/// The value WhoAmI holds on every MPU-family device.
pub const WHO_AM_I_VALUE: u8 = 0x68;

/// Address of the first power-management register; writing zero wakes
/// the device on its internal oscillator.
pub const PWR_MGMT_1_REG: u8 = 0x6b;

/// Address of the sample-rate divider, the first of four consecutive
/// configuration registers.
pub const CONFIG_START_REG: u8 = 0x19;

/// Sample-rate divider value: the 1 kHz base rate divided by 200.
pub const SAMPLE_RATE_DIV: u8 = 199;

/// Config register value: no FSYNC, low-pass filter at 5 Hz.
pub const DLPF_CONFIG: u8 = 0x06;

/// Gyro config value: full-scale range ±250 dps, matching
/// [`crate::decode::GYRO_COUNTS_PER_DPS`].
pub const GYRO_FS_CONFIG: u8 = 0x00;

/// Accel config value: full-scale range ±2 g, matching
/// [`crate::decode::ACCEL_COUNTS_PER_G`].
pub const ACCEL_FS_CONFIG: u8 = 0x00;

/// Address of the first measurement register; registers from here
/// form the contiguous fourteen-byte measurement block.
pub const SAMPLE_START_REG: u8 = 0x3b;

/// The register-pointer select write for `reg`.
pub open spec fn select_op(reg: u8) -> BusOp {
    BusOp::Write { data: seq![reg] }
}

/// The bus traffic of one atomic block read: one select write, then
/// one bulk read of `len` bytes.
pub open spec fn block_read_ops(reg: u8, len: nat) -> Seq<BusOp> {
    seq![select_op(reg), BusOp::Read { len }]
}

/// The bytes of the wake-up write: power-management register, zero.
pub open spec fn wake_bytes() -> Seq<u8> {
    seq![PWR_MGMT_1_REG, 0u8]
}

/// The bytes of the configuration write: the start register, then the
/// values for the four consecutive configuration registers (the
/// device auto-increments its register pointer across the write).
pub open spec fn config_bytes() -> Seq<u8> {
    seq![CONFIG_START_REG, SAMPLE_RATE_DIV, DLPF_CONFIG, GYRO_FS_CONFIG, ACCEL_FS_CONFIG]
}

/// The full ordered bus traffic of a successful [`setup`]: the WhoAmI
/// block read, then the wake-up write, then the configuration write.
pub open spec fn setup_ops() -> Seq<BusOp> {
    block_read_ops(WHO_AM_I_REG, 1) + seq![
        BusOp::Write { data: wake_bytes() },
        BusOp::Write { data: config_bytes() },
    ]
}

/// What a bus failure during [`setup`] leaves behind: the history
/// ends after the operation that failed, and the WhoAmI response is
/// recorded if and only if the failure came after a successful
/// identity read — which then necessarily held the expected value,
/// else no further operation would have been issued.
pub open spec fn setup_transport_failure(
    pre_ops: Seq<BusOp>,
    post_ops: Seq<BusOp>,
    pre_reads: Seq<Seq<u8>>,
    post_reads: Seq<Seq<u8>>,
) -> bool {
    ||| (post_ops == pre_ops.push(select_op(WHO_AM_I_REG)) && post_reads == pre_reads)
    ||| (post_ops == pre_ops + block_read_ops(WHO_AM_I_REG, 1) && post_reads == pre_reads)
    ||| (post_ops == pre_ops + block_read_ops(WHO_AM_I_REG, 1).push(
            BusOp::Write { data: wake_bytes() },
        ) && post_reads == pre_reads.push(seq![WHO_AM_I_VALUE]))
    ||| (post_ops == pre_ops + setup_ops() && post_reads == pre_reads.push(
            seq![WHO_AM_I_VALUE],
        ))
}

/// Read the contiguous block of `buf.len()` registers starting at
/// `reg`: one single-byte register select, then one bulk `read` that
/// fills the whole buffer. Exactly one `write` and at most one `read`
/// are issued whatever the buffer length; the block is never
/// assembled from several reads.
pub fn read_register_block<T: Transport>(bus: &mut T, reg: u8, buf: &mut Vec<u8>) -> (r: Result<
    (),
    TransportError,
>)
    ensures
        final(buf)@.len() == old(buf)@.len(),
        r.is_ok() ==> {
            &&& final(bus).ops() == old(bus).ops() + block_read_ops(
                reg,
                old(buf)@.len() as nat,
            )
            &&& final(bus).reads() == old(bus).reads().push(final(buf)@)
        },
        r.is_err() ==> {
            &&& final(bus).reads() == old(bus).reads()
            &&& (final(bus).ops() == old(bus).ops().push(select_op(reg)) || final(bus).ops()
                == old(bus).ops() + block_read_ops(reg, old(buf)@.len() as nat))
        },
{
    let mut select: Vec<u8> = Vec::new();
    select.push(reg);
    proof {
        assert(select@ =~= seq![reg]);
    }
    match bus.write(&select) {
        Ok(()) => {},
        Err(e) => {
            return Err(e);
        },
    }
    let r = bus.read(buf);
    proof {
        assert(old(bus).ops().push(select_op(reg)).push(
            BusOp::Read { len: old(buf)@.len() as nat },
        ) =~= old(bus).ops() + block_read_ops(reg, old(buf)@.len() as nat));
    }
    r
}

/// The identity decision: a WhoAmI byte is accepted exactly when it
/// is [`WHO_AM_I_VALUE`]; any other byte means the attached
/// peripheral is not an MPU-family device.
pub fn check_whoami(observed: u8) -> (r: Result<(), MpuError>)
    ensures
        r.is_ok() <==> observed == WHO_AM_I_VALUE,
        r.is_err() ==> r == Err::<(), MpuError>(MpuError::DeviceNotRecognized),
{
    if observed == WHO_AM_I_VALUE {
        Ok(())
    } else {
        Err(MpuError::DeviceNotRecognized)
    }
}

/// Identify the device, then arm it: read WhoAmI, fail fast with
/// [`MpuError::DeviceNotRecognized`] — issuing no further write — on
/// any byte other than [`WHO_AM_I_VALUE`], otherwise wake the device
/// and program the configuration registers, in order. Success means
/// the full configuration sequence [`setup_ops`] went out; a bus
/// failure partway is reported and leaves the device only partially
/// configured.
pub fn setup<T: Transport>(bus: &mut T) -> (r: Result<(), MpuError>)
    ensures
        match r {
            Ok(()) => {
                &&& final(bus).ops() == old(bus).ops() + setup_ops()
                &&& final(bus).reads() == old(bus).reads().push(seq![WHO_AM_I_VALUE])
            },
            Err(MpuError::DeviceNotRecognized) => {
                &&& final(bus).ops() == old(bus).ops() + block_read_ops(WHO_AM_I_REG, 1)
                &&& final(bus).reads().len() == old(bus).reads().len() + 1
                &&& final(bus).reads().drop_last() == old(bus).reads()
                &&& final(bus).reads().last().len() == 1
                &&& final(bus).reads().last()[0] != WHO_AM_I_VALUE
            },
            Err(MpuError::Transport(_)) => setup_transport_failure(
                old(bus).ops(),
                final(bus).ops(),
                old(bus).reads(),
                final(bus).reads(),
            ),
        },
{
    let mut whoami: Vec<u8> = Vec::new();
    whoami.push(0);
    match read_register_block(bus, WHO_AM_I_REG, &mut whoami) {
        Ok(()) => {},
        Err(e) => {
            return Err(MpuError::Transport(e));
        },
    }
    match check_whoami(whoami[0]) {
        Ok(()) => {
            proof {
                assert(whoami@ =~= seq![WHO_AM_I_VALUE]);
            }
        },
        Err(e) => {
            return Err(e);
        },
    }
    let mut wake: Vec<u8> = Vec::new();
    wake.push(PWR_MGMT_1_REG);
    wake.push(0);
    proof {
        assert(wake@ =~= wake_bytes());
    }
    match bus.write(&wake) {
        Ok(()) => {},
        Err(e) => {
            return Err(MpuError::Transport(e));
        },
    }
    let mut config: Vec<u8> = Vec::new();
    config.push(CONFIG_START_REG);
    config.push(SAMPLE_RATE_DIV);
    config.push(DLPF_CONFIG);
    config.push(GYRO_FS_CONFIG);
    config.push(ACCEL_FS_CONFIG);
    proof {
        assert(config@ =~= config_bytes());
    }
    let r = bus.write(&config);
    proof {
        assert(final(bus).ops() =~= old(bus).ops() + setup_ops());
    }
    match r {
        Ok(()) => Ok(()),
        Err(e) => Err(MpuError::Transport(e)),
    }
}

/// Read one measurement: fetch the fourteen-byte block at
/// [`SAMPLE_START_REG`] with one atomic block read and decode its
/// seven big-endian fields into raw counts. Valid only after
/// [`setup`] has succeeded — before that the device's registers hold
/// unspecified values, which the caller must rule out.
pub fn read_sample<T: Transport>(bus: &mut T) -> (r: Result<RawSample, MpuError>)
    ensures
        match r {
            Ok(s) => {
                &&& final(bus).ops() == old(bus).ops() + block_read_ops(
                    SAMPLE_START_REG,
                    SAMPLE_LEN as nat,
                )
                &&& final(bus).reads().len() == old(bus).reads().len() + 1
                &&& final(bus).reads().drop_last() == old(bus).reads()
                &&& final(bus).reads().last().len() == SAMPLE_LEN
                &&& decodes_block(s, final(bus).reads().last())
            },
            Err(MpuError::Transport(_)) => {
                &&& final(bus).reads() == old(bus).reads()
                &&& (final(bus).ops() == old(bus).ops().push(select_op(SAMPLE_START_REG))
                    || final(bus).ops() == old(bus).ops() + block_read_ops(
                    SAMPLE_START_REG,
                    SAMPLE_LEN as nat,
                ))
            },
            Err(MpuError::DeviceNotRecognized) => false,
        },
{
    let mut block: Vec<u8> = Vec::new();
    let mut i: usize = 0;
    while i < SAMPLE_LEN
        invariant
            i <= SAMPLE_LEN,
            block@.len() == i,
        decreases SAMPLE_LEN - i,
    {
        block.push(0);
        i = i + 1;
    }
    match read_register_block(bus, SAMPLE_START_REG, &mut block) {
        Ok(()) => {},
        Err(e) => {
            return Err(MpuError::Transport(e));
        },
    }
    Ok(decode_block(&block))
}

} // verus!
