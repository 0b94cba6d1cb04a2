//! The computational core of the raw-socket helper layer.
//!
//! The system calls themselves (`socket`, `ioctl`, `setsockopt`, `fcntl`)
//! live in the unverified shell; this module holds everything those calls
//! are fed with and everything read back from them: the `ifreq` data
//! buffer with its byte-order convention, interface-name validation, and
//! the classic BPF filter program handed to `SO_ATTACH_FILTER`.

use vstd::pervasive::VecAdditionalExecFns;
use vstd::prelude::*;
use vstd::string::{StrSliceExecFns, StringSliceAdditionalSpecFns};

use crate::RingError;

verus! {

/// Size of the interface-name buffer of an `ifreq`, nul included.
pub const IF_NAMESIZE: usize = 16;

/// Size of the data union of an `ifreq`.
pub const IFREQUNIONSIZE: usize = 24;

/// Interface flag: receive all packets, not only those addressed to us.
pub const IFF_PROMISC: u16 = 0x100;

/// `setsockopt` option number installing a fan-out group.
pub const PACKET_FANOUT: i32 = 18;

/// One classic BPF instruction, as the kernel's `sock_filter` lays it out.
#[derive(Clone, Copy, Debug)]
pub struct Filter {
    pub code: u16,
    pub jt: u8,
    pub jf: u8,
    pub k: u32,
}

/// An already-assembled classic BPF program for `SO_ATTACH_FILTER`.
///
/// The kernel's `sock_fprog` is a 16-bit instruction count and a pointer;
/// the shell derives that pair from this owned form when it makes the
/// call.
#[derive(Clone, Debug)]
pub struct FilterProgram {
    filter: Vec<Filter>,
}

impl FilterProgram {
    pub closed spec fn spec_filters(&self) -> Seq<Filter> {
        self.filter@
    }

    /// Wraps an instruction vector; the count must fit the 16-bit length
    /// field of `sock_fprog`.
    pub fn new(filter: Vec<Filter>) -> (r: Option<FilterProgram>)
        ensures
            match r {
                Some(p) => filter@.len() <= 0xFFFF && p.spec_filters() == filter@,
                None => filter@.len() > 0xFFFF,
            },
    {
        if filter.len() <= 0xFFFF {
            Some(FilterProgram { filter })
        } else {
            None
        }
    }

    /// The instruction count fits the 16-bit length field; the
    /// constructor establishes this.
    pub open spec fn wf(&self) -> bool {
        self.spec_filters().len() <= 0xFFFF
    }

    /// The instruction count, as the 16-bit `sock_fprog` length field.
    pub fn len(&self) -> (r: u16)
        requires
            self.wf(),
        ensures
            r == self.spec_filters().len(),
    {
        self.filter.len() as u16
    }

    /// The instructions themselves, for the shell to point `sock_fprog` at.
    pub fn instructions(&self) -> (r: &Vec<Filter>)
        ensures
            r@ == self.spec_filters(),
    {
        &self.filter
    }
}

/// Whether the name holds an interior nul character, which no interface
/// name may (it could not be handed to the C interfaces).
pub open spec fn spec_has_nul(name: Seq<char>) -> bool {
    exists|i: int| 0 <= i < name.len() && name[i] as u32 == 0
}

/// Scans an interface name for nul characters.
pub fn if_name_has_nul(if_name: &str) -> (r: bool)
    ensures
        r == spec_has_nul(if_name@),
{
    let n: usize = if_name.unicode_len();
    let mut i: usize = 0;
    while i < n
        invariant
            n == if_name@.len(),
            0 <= i <= n,
            forall|j: int| 0 <= j < i ==> if_name@[j] as u32 != 0,
        decreases n - i,
    {
        if if_name.get_char(i) as u32 == 0 {
            proof {
                assert(if_name@[i as int] as u32 == 0);
                assert(spec_has_nul(if_name@));
            }
            return true;
        }
        i = i + 1;
    }
    false
}

/// The model of the kernel's `ifreq`: the interface name, nul padded, and
/// the 24-byte data union.  The shell copies both fields verbatim into
/// the C structure before an `ioctl` and back out after one.
#[derive(Clone, Debug)]
pub struct IfReq {
    ifr_name: Vec<u8>,
    data: Vec<u8>,
}

/// The interface flags held in an `ifreq` data union.  The kernel stores
/// a native-order short; the convention here composes the first two bytes
/// as a big-endian short and byte-swaps it back, whose net effect on the
/// supported targets is the little-endian read below.  Writing uses the
/// same layout, so the two directions agree.
pub open spec fn spec_ifr_short(data: Seq<u8>) -> u16
    recommends
        2 <= data.len(),
{
    (data[0] as u16 + data[1] as u16 * 0x100) as u16
}

impl IfReq {
    pub closed spec fn spec_name(&self) -> Seq<u8> {
        self.ifr_name@
    }

    pub closed spec fn spec_data(&self) -> Seq<u8> {
        self.data@
    }

    /// Both buffers have their fixed `ifreq` sizes.
    pub open spec fn wf(&self) -> bool {
        self.spec_name().len() == IF_NAMESIZE && self.spec_data().len() == IFREQUNIONSIZE
    }

    fn zeroed() -> (r: IfReq)
        ensures
            r.wf(),
            forall|i: int| 0 <= i < IF_NAMESIZE ==> r.spec_name()[i] == 0,
            forall|i: int| 0 <= i < IFREQUNIONSIZE ==> r.spec_data()[i] == 0,
    {
        let mut name: Vec<u8> = Vec::new();
        let mut i: usize = 0;
        while i < IF_NAMESIZE
            invariant
                0 <= i <= IF_NAMESIZE,
                name@.len() == i,
                forall|j: int| 0 <= j < i ==> name@[j] == 0,
            decreases IF_NAMESIZE - i,
        {
            name.push(0);
            i = i + 1;
        }
        let mut data: Vec<u8> = Vec::new();
        let mut k: usize = 0;
        while k < IFREQUNIONSIZE
            invariant
                0 <= k <= IFREQUNIONSIZE,
                data@.len() == k,
                forall|j: int| 0 <= j < k ==> data@[j] == 0,
            decreases IFREQUNIONSIZE - k,
        {
            data.push(0);
            k = k + 1;
        }
        IfReq { ifr_name: name, data }
    }

    /// A zeroed request: empty name, zero flags.
    pub fn empty() -> (r: IfReq)
        ensures
            r.wf(),
            forall|i: int| 0 <= i < IF_NAMESIZE ==> r.spec_name()[i] == 0,
            forall|i: int| 0 <= i < IFREQUNIONSIZE ==> r.spec_data()[i] == 0,
    {
        IfReq::zeroed()
    }

    /// A request naming `if_name`, data zeroed; refused when the name
    /// does not leave room for its trailing nul.
    pub fn with_if_name(if_name: &str) -> (r: Result<IfReq, RingError>)
        ensures
            match r {
                Ok(req) => {
                    &&& if_name.spec_bytes().len() < IF_NAMESIZE
                    &&& req.wf()
                    &&& req.spec_name() =~= if_name.spec_bytes() + Seq::new(
                        (IF_NAMESIZE - if_name.spec_bytes().len()) as nat,
                        |i: int| 0u8,
                    )
                    &&& forall|i: int| 0 <= i < IFREQUNIONSIZE ==> req.spec_data()[i] == 0
                },
                Err(e) => e == RingError::IfNameTooLong && if_name.spec_bytes().len()
                    >= IF_NAMESIZE,
            },
    {
        let bytes: &[u8] = if_name.as_bytes();
        let n: usize = bytes.len();
        if n >= IF_NAMESIZE {
            return Err(RingError::IfNameTooLong);
        }
        let mut req = IfReq::zeroed();
        let mut name: Vec<u8> = Vec::new();
        let mut i: usize = 0;
        while i < n
            invariant
                n == bytes@.len() < IF_NAMESIZE,
                0 <= i <= n,
                name@.len() == i,
                forall|j: int| 0 <= j < i ==> name@[j] == bytes@[j],
            decreases n - i,
        {
            name.push(*vstd::slice::slice_index_get(bytes, i));
            i = i + 1;
        }
        while i < IF_NAMESIZE
            invariant
                n == bytes@.len() < IF_NAMESIZE,
                n <= i <= IF_NAMESIZE,
                name@.len() == i,
                forall|j: int| 0 <= j < n ==> name@[j] == bytes@[j],
                forall|j: int| n <= j < i ==> name@[j] == 0,
            decreases IF_NAMESIZE - i,
        {
            name.push(0);
            i = i + 1;
        }
        req.ifr_name = name;
        Ok(req)
    }

    /// The flags short held in the data union.
    pub fn as_short(&self) -> (r: u16)
        requires
            self.wf(),
        ensures
            r == spec_ifr_short(self.spec_data()),
    {
        let b0 = self.data[0];
        let b1 = self.data[1];
        b0 as u16 + b1 as u16 * 0x100
    }

    /// A request whose data union carries the flags short `v`, name empty.
    pub fn from_short(v: u16) -> (r: IfReq)
        ensures
            r.wf(),
            spec_ifr_short(r.spec_data()) == v,
            forall|i: int| 2 <= i < IFREQUNIONSIZE ==> r.spec_data()[i] == 0,
            forall|i: int| 0 <= i < IF_NAMESIZE ==> r.spec_name()[i] == 0,
    {
        let mut req = IfReq::zeroed();
        let b0: u8 = (v % 0x100) as u8;
        let b1: u8 = (v / 0x100) as u8;
        let mut data = req.data;
        data.set(0, b0);
        data.set(1, b1);
        req.data = data;
        proof {
            assert(b0 + b1 * 0x100 == v) by (nonlinear_arith)
                requires
                    b0 == v % 0x100,
                    b1 == v / 0x100,
            ;
        }
        req
    }

    /// Synonym for [`Self::as_short`]: the data union read as the
    /// interface flags.
    pub fn ifr_flags(&self) -> (r: u16)
        requires
            self.wf(),
        ensures
            r == spec_ifr_short(self.spec_data()),
    {
        self.as_short()
    }

    /// The name buffer, for the shell to copy into a C `ifreq`.
    pub fn name_bytes(&self) -> (r: &Vec<u8>)
        ensures
            r@ == self.spec_name(),
    {
        &self.ifr_name
    }

    /// The data union, for the shell to copy into a C `ifreq`.
    pub fn data_bytes(&self) -> (r: &Vec<u8>)
        ensures
            r@ == self.spec_data(),
    {
        &self.data
    }
}

/// The flags short held in an `ifreq` data union whose first two bytes
/// are `b0` and `b1` — what [`IfReq::as_short`] computes, available to
/// the shell for a reply buffer it read back from an `ioctl`.
pub fn ifr_short_from_bytes(b0: u8, b1: u8) -> (r: u16)
    ensures
        r == b0 + b1 * 0x100,
{
    b0 as u16 + b1 as u16 * 0x100
}

/// Builds the `ifreq` to write back with `SIOCSIFFLAGS` when `flag` is to
/// be added to an interface's flags: `current_flags` — the short read
/// from the `SIOCGIFFLAGS` reply — with `flag` or-ed in, and the name
/// set again.
pub fn flag_update_req(current_flags: u16, if_name: &str, flag: u16) -> (r: Result<
    IfReq,
    RingError,
>)
    ensures
        match r {
            Ok(req) => {
                &&& if_name.spec_bytes().len() < IF_NAMESIZE
                &&& req.wf()
                &&& spec_ifr_short(req.spec_data()) == (current_flags | flag)
                &&& req.spec_name() =~= if_name.spec_bytes() + Seq::new(
                    (IF_NAMESIZE - if_name.spec_bytes().len()) as nat,
                    |i: int| 0u8,
                )
            },
            Err(e) => e == RingError::IfNameTooLong && if_name.spec_bytes().len() >= IF_NAMESIZE,
        },
{
    let new_flags = current_flags | flag;
    let mut req = IfReq::with_if_name(if_name)?;
    let encoded = IfReq::from_short(new_flags);
    req.data = encoded.data;
    Ok(req)
}

/// Adding a flag really sets it: the flags short written back by
/// [`flag_update_req`] has every bit of `flag`, so in particular a
/// promiscuous-mode update leaves `IFF_PROMISC` set when it is read back.
pub proof fn lemma_flag_round_trip(flags: u16, flag: u16)
    ensures
        ((flags | flag) & flag) == flag,
        flag != 0 ==> ((flags | flag) & flag) != 0,
{
    assert(((flags | flag) & flag) == flag) by (bit_vector);
}

} // verus!
