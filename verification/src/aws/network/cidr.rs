//! IPv4 CIDR blocks: an address with a prefix length, the network and
//! broadcast addresses derived from them, and the containment test.

use vstd::prelude::*;

verus! {

/// An IPv4 address, held as the unsigned 32-bit number that its four octets
/// spell in big-endian order.
#[derive(Debug, Clone, Copy, PartialEq, Eq, Structural)]
pub struct Ipv4Addr {
    bits: u32,
}

/// The number spelled by four octets, most significant first.
pub open spec fn octets_to_bits(a: u8, b: u8, c: u8, d: u8) -> u32 {
    (a as int * 0x100_0000 + b as int * 0x1_0000 + c as int * 0x100 + d as int) as u32
}

/// Each octet is read back from the number that four octets spell.
pub proof fn lemma_octets_of_bits(a: u8, b: u8, c: u8, d: u8)
    ensures
        octets_to_bits(a, b, c, d) == a as int * 0x100_0000 + b as int * 0x1_0000 + c as int * 0x100
            + d as int,
        octets_to_bits(a, b, c, d) / 0x100_0000 == a,
        octets_to_bits(a, b, c, d) / 0x1_0000 % 0x100 == b,
        octets_to_bits(a, b, c, d) / 0x100 % 0x100 == c,
        octets_to_bits(a, b, c, d) % 0x100 == d,
{
    let n: int = a as int * 0x100_0000 + b as int * 0x1_0000 + c as int * 0x100 + d as int;
    assert(0 <= n <= 0xFFFF_FFFF);
    let lo: int = c as int * 0x100 + d as int;
    let mid: int = b as int * 0x1_0000 + lo;
    assert(n / 0x100_0000 == a as int);
    assert(n / 0x1_0000 == a as int * 0x100 + b as int);
    assert(n / 0x100 == a as int * 0x1_0000 + b as int * 0x100 + c as int);
}

impl Ipv4Addr {
    /// The address as a number.
    pub closed spec fn bits(self) -> u32 {
        self.bits
    }

    /// The four octets of the address, most significant first.
    pub open spec fn spec_octets(self) -> (u8, u8, u8, u8) {
        (
            (self.bits() / 0x100_0000) as u8,
            (self.bits() / 0x1_0000 % 0x100) as u8,
            (self.bits() / 0x100 % 0x100) as u8,
            (self.bits() % 0x100) as u8,
        )
    }

    /// The address `a.b.c.d`.
    pub fn new(a: u8, b: u8, c: u8, d: u8) -> (addr: Ipv4Addr)
        ensures
            addr.bits() == octets_to_bits(a, b, c, d),
            addr.spec_octets() == (a, b, c, d),
    {
        let bits: u32 = (a as u32) * 0x100_0000 + (b as u32) * 0x1_0000 + (c as u32) * 0x100 + (
        d as u32);
        proof {
            lemma_octets_of_bits(a, b, c, d);
        }
        Ipv4Addr { bits }
    }

    /// The address whose numeric value is `bits`.
    pub fn from_bits(bits: u32) -> (addr: Ipv4Addr)
        ensures
            addr.bits() == bits,
    {
        Ipv4Addr { bits }
    }

    /// The numeric value of the address.
    pub fn to_bits(&self) -> (bits: u32)
        ensures
            bits == self.bits(),
    {
        self.bits
    }

    /// The four octets of the address, most significant first.
    pub fn octets(&self) -> (o: (u8, u8, u8, u8))
        ensures
            o == self.spec_octets(),
            self.bits() == octets_to_bits(o.0, o.1, o.2, o.3),
    {
        (
            (self.bits / 0x100_0000) as u8,
            (self.bits / 0x1_0000 % 0x100) as u8,
            (self.bits / 0x100 % 0x100) as u8,
            (self.bits % 0x100) as u8,
        )
    }
}

/// What the conversion gives is stated by the `ensures` of `from` itself.
impl vstd::std_specs::convert::FromSpecImpl<[u8; 4]> for Ipv4Addr {
    open spec fn obeys_from_spec() -> bool {
        false
    }

    open spec fn from_spec(octets: [u8; 4]) -> Ipv4Addr {
        arbitrary()
    }
}

impl From<[u8; 4]> for Ipv4Addr {
    /// The address whose octets are those of the array, most significant first.
    fn from(octets: [u8; 4]) -> (addr: Ipv4Addr)
        ensures
            addr.bits() == octets_to_bits(octets[0], octets[1], octets[2], octets[3]),
            addr.spec_octets() == (octets[0], octets[1], octets[2], octets[3]),
    {
        Ipv4Addr::new(octets[0], octets[1], octets[2], octets[3])
    }
}

/// Why a CIDR block could not be constructed.
#[derive(Debug, Clone, Copy, PartialEq, Eq, Structural)]
pub enum CidrError {
    /// The prefix length is greater than 32.
    InvalidPrefix,
}

/// The netmask of a prefix length: its `p` highest bits are set, so the
/// netmask of 0 is `0x00000000` and that of 32 is `0xFFFFFFFF`.
pub open spec fn mask(p: u8) -> u32 {
    if p == 0 {
        0
    } else if p >= 32 {
        0xFFFF_FFFF
    } else {
        0xFFFF_FFFFu32 << ((32 - p) as u32)
    }
}

/// The lowest address that shares the first `p` bits of `bits`.
pub open spec fn network_bits(bits: u32, p: u8) -> u32 {
    bits & mask(p)
}

/// The highest address that shares the first `p` bits of `bits`.
pub open spec fn broadcast_bits(bits: u32, p: u8) -> u32 {
    bits | !mask(p)
}

/// Whether the number `ip` lies in the block of `bits` with prefix length `p`.
pub open spec fn in_block(bits: u32, p: u8, ip: u32) -> bool {
    network_bits(bits, p) <= ip <= broadcast_bits(bits, p)
}

/// The character of a decimal digit.
pub open spec fn digit_char(d: nat) -> char {
    if d == 0 {
        '0'
    } else if d == 1 {
        '1'
    } else if d == 2 {
        '2'
    } else if d == 3 {
        '3'
    } else if d == 4 {
        '4'
    } else if d == 5 {
        '5'
    } else if d == 6 {
        '6'
    } else if d == 7 {
        '7'
    } else if d == 8 {
        '8'
    } else {
        '9'
    }
}

/// The decimal numeral of `n`, without leading zeros.
pub open spec fn decimal(n: nat) -> Seq<char>
    decreases n,
{
    if n < 10 {
        seq![digit_char(n)]
    } else {
        decimal(n / 10).push(digit_char(n % 10))
    }
}

/// The dotted-decimal notation of an address.
pub open spec fn dotted(addr: Ipv4Addr) -> Seq<char> {
    let (a, b, c, d) = addr.spec_octets();
    decimal(a as nat) + seq!['.'] + decimal(b as nat) + seq!['.'] + decimal(c as nat) + seq!['.']
        + decimal(d as nat)
}

/// The CIDR notation of an address and a prefix length: `a.b.c.d/p`.
pub open spec fn cidr_notation(addr: Ipv4Addr, p: u8) -> Seq<char> {
    dotted(addr) + seq!['/'] + decimal(p as nat)
}

fn digit_str(d: u8) -> (s: &'static str)
    requires
        d < 10,
    ensures
        s@ == seq![digit_char(d as nat)],
{
    proof {
        reveal_strlit("0");
        reveal_strlit("1");
        reveal_strlit("2");
        reveal_strlit("3");
        reveal_strlit("4");
        reveal_strlit("5");
        reveal_strlit("6");
        reveal_strlit("7");
        reveal_strlit("8");
        reveal_strlit("9");
    }
    let s = if d == 0 {
        "0"
    } else if d == 1 {
        "1"
    } else if d == 2 {
        "2"
    } else if d == 3 {
        "3"
    } else if d == 4 {
        "4"
    } else if d == 5 {
        "5"
    } else if d == 6 {
        "6"
    } else if d == 7 {
        "7"
    } else if d == 8 {
        "8"
    } else {
        "9"
    };
    assert(s@ =~= seq![digit_char(d as nat)]);
    s
}

/// Appends the decimal numeral of `n` to `out`.
fn push_decimal(out: &mut String, n: u8)
    ensures
        final(out)@ == old(out)@ + decimal(n as nat),
{
    if n >= 100 {
        out.append(digit_str(n / 100));
        out.append(digit_str(n / 10 % 10));
        out.append(digit_str(n % 10));
        proof {
            reveal_with_fuel(decimal, 3);
            let hi = (n / 10) as nat;
            assert(decimal(hi) =~= seq![digit_char(hi / 10), digit_char(hi % 10)]);
            assert(decimal(n as nat) =~= decimal(hi).push(digit_char((n % 10) as nat)));
            assert(final(out)@ =~= old(out)@ + decimal(n as nat));
        }
    } else if n >= 10 {
        out.append(digit_str(n / 10));
        out.append(digit_str(n % 10));
        proof {
            reveal_with_fuel(decimal, 2);
            assert(decimal(n as nat) =~= seq![
                digit_char((n / 10) as nat),
                digit_char((n % 10) as nat),
            ]);
            assert(final(out)@ =~= old(out)@ + decimal(n as nat));
        }
    } else {
        out.append(digit_str(n));
        proof {
            assert(final(out)@ =~= old(out)@ + decimal(n as nat));
        }
    }
}

/// An IPv4 address together with a prefix length of at most 32.
#[derive(Debug, Clone, Copy, PartialEq, Eq)]
pub struct Block {
    address: Ipv4Addr,
    prefix_length: u8,
}

impl Block {
    #[verifier::type_invariant]
    spec fn prefix_in_range(self) -> bool {
        self.prefix_length <= 32
    }

    /// The address that the block was constructed with.
    pub closed spec fn spec_address(self) -> Ipv4Addr {
        self.address
    }

    /// The prefix length that the block was constructed with.
    pub closed spec fn spec_prefix_length(self) -> u8 {
        self.prefix_length
    }

    /// The lowest address of the block, as a number.
    pub open spec fn spec_network(self) -> u32 {
        network_bits(self.spec_address().bits(), self.spec_prefix_length())
    }

    /// The highest address of the block, as a number.
    pub open spec fn spec_broadcast(self) -> u32 {
        broadcast_bits(self.spec_address().bits(), self.spec_prefix_length())
    }

    /// The block in CIDR notation, `a.b.c.d/p`.
    pub open spec fn spec_notation(self) -> Seq<char> {
        cidr_notation(self.spec_address(), self.spec_prefix_length())
    }

    /// Whether `ip` lies between the lowest and the highest address of the block.
    pub open spec fn spec_contains(self, ip: Ipv4Addr) -> bool {
        in_block(self.spec_address().bits(), self.spec_prefix_length(), ip.bits())
    }

    /// The block of `address` with `prefix_length` leading network bits.
    /// A prefix length above 32 is refused.
    pub fn new(address: Ipv4Addr, prefix_length: u8) -> (res: Result<Block, CidrError>)
        ensures
            prefix_length <= 32 <==> res is Ok,
            res is Ok ==> res->Ok_0.spec_address() == address && res->Ok_0.spec_prefix_length()
                == prefix_length,
            res is Err ==> res->Err_0 == CidrError::InvalidPrefix,
    {
        if prefix_length > 32 {
            return Err(CidrError::InvalidPrefix);
        }
        Ok(Block { address, prefix_length })
    }

    /// The address that the block was constructed with, host bits included.
    pub fn address(&self) -> (addr: Ipv4Addr)
        ensures
            addr == self.spec_address(),
    {
        self.address
    }

    /// The number of leading bits that name the network.
    pub fn prefix_length(&self) -> (p: u8)
        ensures
            p == self.spec_prefix_length(),
            p <= 32,
    {
        proof {
            use_type_invariant(self);
        }
        self.prefix_length
    }

    /// The lowest address of the block: the address with its host bits cleared.
    pub fn network_address(&self) -> (net: Ipv4Addr)
        ensures
            net.bits() == self.spec_network(),
    {
        proof {
            use_type_invariant(self);
        }
        if self.prefix_length == 0 {
            let zero = Ipv4Addr::new(0, 0, 0, 0);
            assert(self.address.bits() & 0u32 == 0u32) by (bit_vector);
            zero
        } else {
            let shift: u32 = 32 - self.prefix_length as u32;
            let m: u32 = u32::MAX << shift;
            assert(self.prefix_length == 32 ==> m == 0xFFFF_FFFFu32) by {
                assert(0xFFFF_FFFFu32 << 0u32 == 0xFFFF_FFFFu32) by (bit_vector);
            }
            Ipv4Addr::from_bits(self.address.to_bits() & m)
        }
    }

    /// The highest address of the block: the address with its host bits set.
    pub fn broadcast_address(&self) -> (bcast: Ipv4Addr)
        ensures
            bcast.bits() == self.spec_broadcast(),
    {
        proof {
            use_type_invariant(self);
        }
        if self.prefix_length == 32 {
            assert(self.address.bits() | !0xFFFF_FFFFu32 == self.address.bits()) by (bit_vector);
            self.address
        } else {
            let host: u32 = u32::MAX >> (self.prefix_length as u32);
            let p: u32 = self.prefix_length as u32;
            assert(p == 0 ==> host == !0u32) by {
                assert(0xFFFF_FFFFu32 >> 0u32 == !0u32) by (bit_vector);
            }
            assert(0 < p < 32 ==> 0xFFFF_FFFFu32 >> p == !(0xFFFF_FFFFu32 << ((32 - p) as u32)))
                by (bit_vector);
            Ipv4Addr::from_bits(self.address.to_bits() | host)
        }
    }

    /// Whether `ip` belongs to the block.
    pub fn contains(&self, ip: Ipv4Addr) -> (inside: bool)
        ensures
            inside == self.spec_contains(ip),
    {
        let network = self.network_address().to_bits();
        let broadcast = self.broadcast_address().to_bits();
        let ip = ip.to_bits();
        ip >= network && ip <= broadcast
    }

    /// The block in CIDR notation, `a.b.c.d/p`.
    pub fn to_string(&self) -> (s: String)
        ensures
            s@ == self.spec_notation(),
    {
        let (a, b, c, d) = self.address.octets();
        let mut out = String::new();
        push_decimal(&mut out, a);
        out.append(".");
        push_decimal(&mut out, b);
        out.append(".");
        push_decimal(&mut out, c);
        out.append(".");
        push_decimal(&mut out, d);
        out.append("/");
        push_decimal(&mut out, self.prefix_length);
        proof {
            reveal_strlit(".");
            reveal_strlit("/");
            assert("."@ =~= seq!['.']);
            assert("/"@ =~= seq!['/']);
            assert(out@ =~= cidr_notation(self.spec_address(), self.spec_prefix_length()));
        }
        out
    }
}

/// The address of a block lies between its network address and its broadcast
/// address, and both of these belong to the block.
pub proof fn lemma_block_bounds(block: Block)
    requires
        block.spec_prefix_length() <= 32,
    ensures
        block.spec_network() <= block.spec_address().bits() <= block.spec_broadcast(),
        forall|ip: Ipv4Addr| ip.bits() == block.spec_network() ==> block.spec_contains(ip),
        forall|ip: Ipv4Addr| ip.bits() == block.spec_broadcast() ==> block.spec_contains(ip),
{
    let bits = block.spec_address().bits();
    let m = mask(block.spec_prefix_length());
    assert(bits & m <= bits) by (bit_vector);
    assert(bits <= bits | !m) by (bit_vector);
}

/// With prefix length 0 the block is the whole address space: it starts at
/// `0.0.0.0`, ends at `255.255.255.255` and contains every address.
pub proof fn lemma_prefix_zero(block: Block, ip: Ipv4Addr)
    requires
        block.spec_prefix_length() == 0,
    ensures
        block.spec_network() == 0,
        block.spec_broadcast() == 0xFFFF_FFFF,
        block.spec_contains(ip),
{
    let bits = block.spec_address().bits();
    assert(bits & 0u32 == 0u32) by (bit_vector);
    assert(bits | !0u32 == 0xFFFF_FFFFu32) by (bit_vector);
}

/// With prefix length 32 the block is the single address it was made from.
pub proof fn lemma_prefix_full(block: Block, ip: Ipv4Addr)
    requires
        block.spec_prefix_length() == 32,
    ensures
        block.spec_network() == block.spec_address().bits(),
        block.spec_broadcast() == block.spec_address().bits(),
        block.spec_contains(ip) <==> ip.bits() == block.spec_address().bits(),
        block.spec_contains(ip) <==> ip == block.spec_address(),
{
    let bits = block.spec_address().bits();
    assert(bits & 0xFFFF_FFFFu32 == bits) by (bit_vector);
    assert(bits | !0xFFFF_FFFFu32 == bits) by (bit_vector);
}

} // verus!
