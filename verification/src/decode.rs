use vstd::prelude::*;

verus! {

/// An unsigned integer of 2 bits.
#[derive(Clone, Copy, Debug)]
pub struct U2 {
    value: u8,
}

impl U2 {
    #[verifier::type_invariant]
    spec fn in_range(self) -> bool {
        self.value < 4
    }

    /// The number that the field holds.
    pub closed spec fn view(self) -> nat {
        self.value as nat
    }

    /// The field that holds `value`.
    pub closed spec fn of_nat(value: nat) -> Self {
        U2 { value: value as u8 }
    }

    /// The field made of a number holds that number, where it fits.
    pub proof fn lemma_of_nat(value: nat)
        requires
            value < 4,
        ensures
            Self::of_nat(value)@ == value,
    {
    }

    /// The field with the given value, where it fits in 2 bits.
    pub fn new(value: u8) -> (out: Option<Self>)
        ensures
            out.is_some() <==> value < 4,
            out matches Some(field) ==> field@ == value,
    {
        if value < 4 {
            Some(U2 { value })
        } else {
            None
        }
    }

    pub fn as_u8(self) -> (out: u8)
        ensures
            out == self@,
            out < 4,
    {
        proof {
            use_type_invariant(&self);
        }
        self.value
    }

    pub fn as_u16(self) -> (out: u16)
        ensures
            out == self@,
            out < 4,
    {
        proof {
            use_type_invariant(&self);
        }
        self.value as u16
    }

    pub fn as_u32(self) -> (out: u32)
        ensures
            out == self@,
            out < 4,
    {
        proof {
            use_type_invariant(&self);
        }
        self.value as u32
    }

    pub fn as_u64(self) -> (out: u64)
        ensures
            out == self@,
            out < 4,
    {
        proof {
            use_type_invariant(&self);
        }
        self.value as u64
    }
}

/// An unsigned integer of 3 bits.
#[derive(Clone, Copy, Debug)]
pub struct U3 {
    value: u8,
}

impl U3 {
    #[verifier::type_invariant]
    spec fn in_range(self) -> bool {
        self.value < 8
    }

    /// The number that the field holds.
    pub closed spec fn view(self) -> nat {
        self.value as nat
    }

    /// The field that holds `value`.
    pub closed spec fn of_nat(value: nat) -> Self {
        U3 { value: value as u8 }
    }

    /// The field made of a number holds that number, where it fits.
    pub proof fn lemma_of_nat(value: nat)
        requires
            value < 8,
        ensures
            Self::of_nat(value)@ == value,
    {
    }

    /// The field with the given value, where it fits in 3 bits.
    pub fn new(value: u8) -> (out: Option<Self>)
        ensures
            out.is_some() <==> value < 8,
            out matches Some(field) ==> field@ == value,
    {
        if value < 8 {
            Some(U3 { value })
        } else {
            None
        }
    }

    pub fn as_u8(self) -> (out: u8)
        ensures
            out == self@,
            out < 8,
    {
        proof {
            use_type_invariant(&self);
        }
        self.value
    }

    pub fn as_u16(self) -> (out: u16)
        ensures
            out == self@,
            out < 8,
    {
        proof {
            use_type_invariant(&self);
        }
        self.value as u16
    }

    pub fn as_u32(self) -> (out: u32)
        ensures
            out == self@,
            out < 8,
    {
        proof {
            use_type_invariant(&self);
        }
        self.value as u32
    }

    pub fn as_u64(self) -> (out: u64)
        ensures
            out == self@,
            out < 8,
    {
        proof {
            use_type_invariant(&self);
        }
        self.value as u64
    }
}

/// An unsigned integer of 5 bits.
#[derive(Clone, Copy, Debug)]
pub struct U5 {
    value: u8,
}

impl U5 {
    #[verifier::type_invariant]
    spec fn in_range(self) -> bool {
        self.value < 32
    }

    /// The number that the field holds.
    pub closed spec fn view(self) -> nat {
        self.value as nat
    }

    /// The field that holds `value`.
    pub closed spec fn of_nat(value: nat) -> Self {
        U5 { value: value as u8 }
    }

    /// The field made of a number holds that number, where it fits.
    pub proof fn lemma_of_nat(value: nat)
        requires
            value < 32,
        ensures
            Self::of_nat(value)@ == value,
    {
    }

    /// The field with the given value, where it fits in 5 bits.
    pub fn new(value: u8) -> (out: Option<Self>)
        ensures
            out.is_some() <==> value < 32,
            out matches Some(field) ==> field@ == value,
    {
        if value < 32 {
            Some(U5 { value })
        } else {
            None
        }
    }

    pub fn as_u8(self) -> (out: u8)
        ensures
            out == self@,
            out < 32,
    {
        proof {
            use_type_invariant(&self);
        }
        self.value
    }

    pub fn as_u16(self) -> (out: u16)
        ensures
            out == self@,
            out < 32,
    {
        proof {
            use_type_invariant(&self);
        }
        self.value as u16
    }

    pub fn as_u32(self) -> (out: u32)
        ensures
            out == self@,
            out < 32,
    {
        proof {
            use_type_invariant(&self);
        }
        self.value as u32
    }

    pub fn as_u64(self) -> (out: u64)
        ensures
            out == self@,
            out < 32,
    {
        proof {
            use_type_invariant(&self);
        }
        self.value as u64
    }
}

/// An unsigned integer of 6 bits.
#[derive(Clone, Copy, Debug)]
pub struct U6 {
    value: u8,
}

impl U6 {
    #[verifier::type_invariant]
    spec fn in_range(self) -> bool {
        self.value < 64
    }

    /// The number that the field holds.
    pub closed spec fn view(self) -> nat {
        self.value as nat
    }

    /// The field that holds `value`.
    pub closed spec fn of_nat(value: nat) -> Self {
        U6 { value: value as u8 }
    }

    /// The field made of a number holds that number, where it fits.
    pub proof fn lemma_of_nat(value: nat)
        requires
            value < 64,
        ensures
            Self::of_nat(value)@ == value,
    {
    }

    /// The field with the given value, where it fits in 6 bits.
    pub fn new(value: u8) -> (out: Option<Self>)
        ensures
            out.is_some() <==> value < 64,
            out matches Some(field) ==> field@ == value,
    {
        if value < 64 {
            Some(U6 { value })
        } else {
            None
        }
    }

    pub fn as_u8(self) -> (out: u8)
        ensures
            out == self@,
            out < 64,
    {
        proof {
            use_type_invariant(&self);
        }
        self.value
    }

    pub fn as_u16(self) -> (out: u16)
        ensures
            out == self@,
            out < 64,
    {
        proof {
            use_type_invariant(&self);
        }
        self.value as u16
    }

    pub fn as_u32(self) -> (out: u32)
        ensures
            out == self@,
            out < 64,
    {
        proof {
            use_type_invariant(&self);
        }
        self.value as u32
    }

    pub fn as_u64(self) -> (out: u64)
        ensures
            out == self@,
            out < 64,
    {
        proof {
            use_type_invariant(&self);
        }
        self.value as u64
    }
}

/// An unsigned integer of 7 bits.
#[derive(Clone, Copy, Debug)]
pub struct U7 {
    value: u8,
}

impl U7 {
    #[verifier::type_invariant]
    spec fn in_range(self) -> bool {
        self.value < 128
    }

    /// The number that the field holds.
    pub closed spec fn view(self) -> nat {
        self.value as nat
    }

    /// The field that holds `value`.
    pub closed spec fn of_nat(value: nat) -> Self {
        U7 { value: value as u8 }
    }

    /// The field made of a number holds that number, where it fits.
    pub proof fn lemma_of_nat(value: nat)
        requires
            value < 128,
        ensures
            Self::of_nat(value)@ == value,
    {
    }

    /// The field with the given value, where it fits in 7 bits.
    pub fn new(value: u8) -> (out: Option<Self>)
        ensures
            out.is_some() <==> value < 128,
            out matches Some(field) ==> field@ == value,
    {
        if value < 128 {
            Some(U7 { value })
        } else {
            None
        }
    }

    pub fn as_u8(self) -> (out: u8)
        ensures
            out == self@,
            out < 128,
    {
        proof {
            use_type_invariant(&self);
        }
        self.value
    }

    pub fn as_u16(self) -> (out: u16)
        ensures
            out == self@,
            out < 128,
    {
        proof {
            use_type_invariant(&self);
        }
        self.value as u16
    }

    pub fn as_u32(self) -> (out: u32)
        ensures
            out == self@,
            out < 128,
    {
        proof {
            use_type_invariant(&self);
        }
        self.value as u32
    }

    pub fn as_u64(self) -> (out: u64)
        ensures
            out == self@,
            out < 128,
    {
        proof {
            use_type_invariant(&self);
        }
        self.value as u64
    }
}

/// An unsigned integer of 12 bits.
#[derive(Clone, Copy, Debug)]
pub struct U12 {
    value: u16,
}

impl U12 {
    #[verifier::type_invariant]
    spec fn in_range(self) -> bool {
        self.value < 4096
    }

    /// The number that the field holds.
    pub closed spec fn view(self) -> nat {
        self.value as nat
    }

    /// The field that holds `value`.
    pub closed spec fn of_nat(value: nat) -> Self {
        U12 { value: value as u16 }
    }

    /// The field made of a number holds that number, where it fits.
    pub proof fn lemma_of_nat(value: nat)
        requires
            value < 4096,
        ensures
            Self::of_nat(value)@ == value,
    {
    }

    /// The field with the given value, where it fits in 12 bits.
    pub fn new(value: u16) -> (out: Option<Self>)
        ensures
            out.is_some() <==> value < 4096,
            out matches Some(field) ==> field@ == value,
    {
        if value < 4096 {
            Some(U12 { value })
        } else {
            None
        }
    }

    pub fn as_u16(self) -> (out: u16)
        ensures
            out == self@,
            out < 4096,
    {
        proof {
            use_type_invariant(&self);
        }
        self.value
    }

    pub fn as_u32(self) -> (out: u32)
        ensures
            out == self@,
            out < 4096,
    {
        proof {
            use_type_invariant(&self);
        }
        self.value as u32
    }

    pub fn as_u64(self) -> (out: u64)
        ensures
            out == self@,
            out < 4096,
    {
        proof {
            use_type_invariant(&self);
        }
        self.value as u64
    }
}

/// An unsigned integer of 13 bits.
#[derive(Clone, Copy, Debug)]
pub struct U13 {
    value: u16,
}

impl U13 {
    #[verifier::type_invariant]
    spec fn in_range(self) -> bool {
        self.value < 8192
    }

    /// The number that the field holds.
    pub closed spec fn view(self) -> nat {
        self.value as nat
    }

    /// The field that holds `value`.
    pub closed spec fn of_nat(value: nat) -> Self {
        U13 { value: value as u16 }
    }

    /// The field made of a number holds that number, where it fits.
    pub proof fn lemma_of_nat(value: nat)
        requires
            value < 8192,
        ensures
            Self::of_nat(value)@ == value,
    {
    }

    /// The field with the given value, where it fits in 13 bits.
    pub fn new(value: u16) -> (out: Option<Self>)
        ensures
            out.is_some() <==> value < 8192,
            out matches Some(field) ==> field@ == value,
    {
        if value < 8192 {
            Some(U13 { value })
        } else {
            None
        }
    }

    pub fn as_u16(self) -> (out: u16)
        ensures
            out == self@,
            out < 8192,
    {
        proof {
            use_type_invariant(&self);
        }
        self.value
    }

    pub fn as_u32(self) -> (out: u32)
        ensures
            out == self@,
            out < 8192,
    {
        proof {
            use_type_invariant(&self);
        }
        self.value as u32
    }

    pub fn as_u64(self) -> (out: u64)
        ensures
            out == self@,
            out < 8192,
    {
        proof {
            use_type_invariant(&self);
        }
        self.value as u64
    }
}

/// An unsigned integer of 21 bits.
#[derive(Clone, Copy, Debug)]
pub struct U21 {
    value: u32,
}

impl U21 {
    #[verifier::type_invariant]
    spec fn in_range(self) -> bool {
        self.value < 0x20_0000
    }

    /// The number that the field holds.
    pub closed spec fn view(self) -> nat {
        self.value as nat
    }

    /// The field that holds `value`.
    pub closed spec fn of_nat(value: nat) -> Self {
        U21 { value: value as u32 }
    }

    /// The field made of a number holds that number, where it fits.
    pub proof fn lemma_of_nat(value: nat)
        requires
            value < 0x20_0000,
        ensures
            Self::of_nat(value)@ == value,
    {
    }

    /// The field with the given value, where it fits in 21 bits.
    pub fn new(value: u32) -> (out: Option<Self>)
        ensures
            out.is_some() <==> value < 0x20_0000,
            out matches Some(field) ==> field@ == value,
    {
        if value < 0x20_0000 {
            Some(U21 { value })
        } else {
            None
        }
    }

    pub fn as_u32(self) -> (out: u32)
        ensures
            out == self@,
            out < 0x20_0000,
    {
        proof {
            use_type_invariant(&self);
        }
        self.value
    }

    pub fn as_u64(self) -> (out: u64)
        ensures
            out == self@,
            out < 0x20_0000,
    {
        proof {
            use_type_invariant(&self);
        }
        self.value as u64
    }
}

impl U12 {
    /// The field read as a signed number of 12 bits.
    pub open spec fn signed(self) -> int {
        if self@ < 2048 {
            self@ as int
        } else {
            self@ - 4096
        }
    }

    /// Sign extension: bit 11 is copied into all higher bits.
    pub fn sign_extend(self) -> (out: i16)
        ensures
            out == self.signed(),
            -2048 <= out < 2048,
    {
        let raw: u16 = self.as_u16();
        if raw < 2048 {
            raw as i16
        } else {
            let low: i16 = (raw - 2048) as i16;
            low - 2048
        }
    }
}

impl U13 {
    /// The field read as a signed number of 13 bits.
    pub open spec fn signed(self) -> int {
        if self@ < 4096 {
            self@ as int
        } else {
            self@ - 8192
        }
    }

    /// Sign extension: bit 12 is copied into all higher bits.
    pub fn sign_extend(self) -> (out: i16)
        ensures
            out == self.signed(),
            -4096 <= out < 4096,
    {
        let raw: u16 = self.as_u16();
        if raw < 4096 {
            raw as i16
        } else {
            let low: i16 = (raw - 4096) as i16;
            low - 4096
        }
    }
}

impl U21 {
    /// The field read as a signed number of 21 bits.
    pub open spec fn signed(self) -> int {
        if self@ < 0x10_0000 {
            self@ as int
        } else {
            self@ - 0x20_0000
        }
    }

    /// Sign extension: bit 20 is copied into all higher bits.
    pub fn sign_extend(self) -> (out: i32)
        ensures
            out == self.signed(),
            -0x10_0000 <= out < 0x10_0000,
    {
        let raw: u32 = self.as_u32();
        if raw < 0x10_0000 {
            raw as i32
        } else {
            let low: i32 = (raw - 0x10_0000) as i32;
            low - 0x10_0000
        }
    }
}

impl U2 {
    pub(crate) fn from_field(value: u32) -> (out: Self)
        requires
            value < 4,
        ensures
            out@ == value,
            out == Self::of_nat(value as nat),
    {
        U2 { value: value as u8 }
    }
}

impl U3 {
    pub(crate) fn from_field(value: u32) -> (out: Self)
        requires
            value < 8,
        ensures
            out@ == value,
            out == Self::of_nat(value as nat),
    {
        U3 { value: value as u8 }
    }
}

impl U5 {
    pub(crate) fn from_field(value: u32) -> (out: Self)
        requires
            value < 32,
        ensures
            out@ == value,
            out == Self::of_nat(value as nat),
    {
        U5 { value: value as u8 }
    }
}

impl U6 {
    pub(crate) fn from_field(value: u32) -> (out: Self)
        requires
            value < 64,
        ensures
            out@ == value,
            out == Self::of_nat(value as nat),
    {
        U6 { value: value as u8 }
    }
}

impl U7 {
    pub(crate) fn from_field(value: u32) -> (out: Self)
        requires
            value < 128,
        ensures
            out@ == value,
            out == Self::of_nat(value as nat),
    {
        U7 { value: value as u8 }
    }
}

impl U12 {
    pub(crate) fn from_field(value: u32) -> (out: Self)
        requires
            value < 4096,
        ensures
            out@ == value,
            out == Self::of_nat(value as nat),
    {
        U12 { value: value as u16 }
    }
}

impl U13 {
    pub(crate) fn from_field(value: u32) -> (out: Self)
        requires
            value < 8192,
        ensures
            out@ == value,
            out == Self::of_nat(value as nat),
    {
        U13 { value: value as u16 }
    }
}

impl U21 {
    pub(crate) fn from_field(value: u32) -> (out: Self)
        requires
            value < 0x20_0000,
        ensures
            out@ == value,
            out == Self::of_nat(value as nat),
    {
        U21 { value: value }
    }
}

/// The bits `lo..=hi` of an instruction word, with their bound.
fn field(word: u32, lo: u32, hi: u32) -> (out: u32)
    requires
        lo <= hi < 32,
    ensures
        out == crate::bit_field(word, lo as nat, hi as nat),
        out < crate::two_to((hi - lo + 1) as nat),
{
    crate::bit_extract(word, lo, hi)
}

/// Register format: two sources, a destination and ten bits that select the operation.
#[derive(Clone, Copy, Debug)]
pub struct R {
    pub rd: U5,
    pub rs1: U5,
    pub rs2: U5,
    pub funct3: U3,
    pub funct7: U7,
}

impl R {
    /// The instruction that `word` encodes in this format.
    pub open spec fn of(word: u32) -> Self {
        R {
            rd: U5::of_nat(crate::bit_field(word, 7, 11)),
            funct3: U3::of_nat(crate::bit_field(word, 12, 14)),
            rs1: U5::of_nat(crate::bit_field(word, 15, 19)),
            rs2: U5::of_nat(crate::bit_field(word, 20, 24)),
            funct7: U7::of_nat(crate::bit_field(word, 25, 31)),
        }
    }

    /// The instruction that a word encodes has the fields of the word.
    pub proof fn lemma_of(word: u32)
        ensures
            Self::of(word).decodes(word),
    {
        U5::lemma_of_nat(crate::bit_field(word, 7, 11));
        U3::lemma_of_nat(crate::bit_field(word, 12, 14));
        U5::lemma_of_nat(crate::bit_field(word, 15, 19));
        U5::lemma_of_nat(crate::bit_field(word, 20, 24));
        U7::lemma_of_nat(crate::bit_field(word, 25, 31));
    }

    /// The fields are those of `word`, read at the positions of this format.
    pub open spec fn decodes(self, word: u32) -> bool {
        &&& self.rd@ == crate::bit_field(word, 7, 11)
        &&& self.funct3@ == crate::bit_field(word, 12, 14)
        &&& self.rs1@ == crate::bit_field(word, 15, 19)
        &&& self.rs2@ == crate::bit_field(word, 20, 24)
        &&& self.funct7@ == crate::bit_field(word, 25, 31)
    }

    /// Reads the fields of this format from an instruction word.
    pub fn from_u32(word: u32) -> (out: Self)
        ensures
            out == Self::of(word),
            out.decodes(word),
    {
        proof {
            Self::lemma_of(word);
        }
        R {
            rd: U5::from_field(field(word, 7, 11)),
            rs1: U5::from_field(field(word, 15, 19)),
            rs2: U5::from_field(field(word, 20, 24)),
            funct3: U3::from_field(field(word, 12, 14)),
            funct7: U7::from_field(field(word, 25, 31)),
        }
    }

    /// The key of an integer operation: `funct7` above `funct3`.
    pub open spec fn id_spec(self) -> nat {
        self.funct7@ * 8 + self.funct3@
    }

    pub fn id(&self) -> (out: u16)
        ensures
            out == self.id_spec(),
            out < 1024,
    {
        self.funct7.as_u16() * 8 + self.funct3.as_u16()
    }

    /// The key of a single-precision operation.
    ///
    /// Arithmetic is selected by `funct7` alone, so that the rounding mode in
    /// `funct3` is ignored. A conversion is selected by `funct7` above `rs2`,
    /// which tells the signed from the unsigned form. Every other operation is
    /// selected by `funct7` above `funct3`. A `funct7` below 16 that is not
    /// one of arithmetic would give a key that arithmetic uses; it gets the
    /// key `0xFFF`, which is the key of no operation.
    pub open spec fn fid_spec(self) -> nat {
        if self.funct7@ == 0 || self.funct7@ == 4 || self.funct7@ == 8 || self.funct7@ == 12
            || self.funct7@ == 44 {
            self.funct7@
        } else if self.funct7@ == 96 || self.funct7@ == 104 {
            self.funct7@ * 32 + self.rs2@
        } else if self.funct7@ >= 16 {
            self.funct7@ * 8 + self.funct3@
        } else {
            0xFFF
        }
    }

    pub fn fid(&self) -> (out: u16)
        ensures
            out == self.fid_spec(),
            out < 4096,
    {
        let funct7: u16 = self.funct7.as_u16();
        if funct7 == 0 || funct7 == 4 || funct7 == 8 || funct7 == 12 || funct7 == 44 {
            funct7
        } else if funct7 == 96 || funct7 == 104 {
            funct7 * 32 + self.rs2.as_u16()
        } else if funct7 >= 16 {
            funct7 * 8 + self.funct3.as_u16()
        } else {
            0xFFF
        }
    }
}

/// Immediate format: a source, a destination and an immediate of 12 bits.
#[derive(Clone, Copy, Debug)]
pub struct I {
    pub rd: U5,
    pub rs1: U5,
    pub funct3: U3,
    pub imm: U12,
}

impl I {
    /// The instruction that `word` encodes in this format.
    pub open spec fn of(word: u32) -> Self {
        I {
            rd: U5::of_nat(crate::bit_field(word, 7, 11)),
            funct3: U3::of_nat(crate::bit_field(word, 12, 14)),
            rs1: U5::of_nat(crate::bit_field(word, 15, 19)),
            imm: U12::of_nat(crate::bit_field(word, 20, 31)),
        }
    }

    /// The instruction that a word encodes has the fields of the word.
    pub proof fn lemma_of(word: u32)
        ensures
            Self::of(word).decodes(word),
    {
        U5::lemma_of_nat(crate::bit_field(word, 7, 11));
        U3::lemma_of_nat(crate::bit_field(word, 12, 14));
        U5::lemma_of_nat(crate::bit_field(word, 15, 19));
        U12::lemma_of_nat(crate::bit_field(word, 20, 31));
    }

    /// The fields are those of `word`, read at the positions of this format.
    pub open spec fn decodes(self, word: u32) -> bool {
        &&& self.rd@ == crate::bit_field(word, 7, 11)
        &&& self.funct3@ == crate::bit_field(word, 12, 14)
        &&& self.rs1@ == crate::bit_field(word, 15, 19)
        &&& self.imm@ == crate::bit_field(word, 20, 31)
    }

    /// Reads the fields of this format from an instruction word.
    pub fn from_u32(word: u32) -> (out: Self)
        ensures
            out == Self::of(word),
            out.decodes(word),
    {
        proof {
            Self::lemma_of(word);
        }
        I {
            rd: U5::from_field(field(word, 7, 11)),
            rs1: U5::from_field(field(word, 15, 19)),
            funct3: U3::from_field(field(word, 12, 14)),
            imm: U12::from_field(field(word, 20, 31)),
        }
    }

    /// The key of the operation: `funct3`.
    pub open spec fn id_spec(self) -> nat {
        self.funct3@
    }

    pub fn id(&self) -> (out: u8)
        ensures
            out == self.id_spec(),
            out < 8,
    {
        self.funct3.as_u8()
    }
}

/// Store format: two sources and an immediate of 12 bits that the word holds in two pieces.
#[derive(Clone, Copy, Debug)]
pub struct S {
    pub rs1: U5,
    pub rs2: U5,
    pub funct3: U3,
    pub imm: U12,
}

impl S {
    /// The instruction that `word` encodes in this format.
    pub open spec fn of(word: u32) -> Self {
        S {
            funct3: U3::of_nat(crate::bit_field(word, 12, 14)),
            rs1: U5::of_nat(crate::bit_field(word, 15, 19)),
            rs2: U5::of_nat(crate::bit_field(word, 20, 24)),
            imm: U12::of_nat(crate::bit_field(word, 25, 31) * 32 + crate::bit_field(word, 7, 11)),
        }
    }

    /// The instruction that a word encodes has the fields of the word.
    pub proof fn lemma_of(word: u32)
        ensures
            Self::of(word).decodes(word),
    {
        U3::lemma_of_nat(crate::bit_field(word, 12, 14));
        U5::lemma_of_nat(crate::bit_field(word, 15, 19));
        U5::lemma_of_nat(crate::bit_field(word, 20, 24));
        U12::lemma_of_nat(crate::bit_field(word, 25, 31) * 32 + crate::bit_field(word, 7, 11));
    }

    /// The fields are those of `word`, read at the positions of this format.
    pub open spec fn decodes(self, word: u32) -> bool {
        &&& self.funct3@ == crate::bit_field(word, 12, 14)
        &&& self.rs1@ == crate::bit_field(word, 15, 19)
        &&& self.rs2@ == crate::bit_field(word, 20, 24)
        &&& self.imm@ == crate::bit_field(word, 25, 31) * 32 + crate::bit_field(word, 7, 11)
    }

    /// Reads the fields of this format from an instruction word.
    pub fn from_u32(word: u32) -> (out: Self)
        ensures
            out == Self::of(word),
            out.decodes(word),
    {
        proof {
            Self::lemma_of(word);
        }
        S {
            rs1: U5::from_field(field(word, 15, 19)),
            rs2: U5::from_field(field(word, 20, 24)),
            funct3: U3::from_field(field(word, 12, 14)),
            imm: U12::from_field(field(word, 25, 31) * 32 + field(word, 7, 11)),
        }
    }

    /// The key of the operation: `funct3`.
    pub open spec fn id_spec(self) -> nat {
        self.funct3@
    }

    pub fn id(&self) -> (out: u8)
        ensures
            out == self.id_spec(),
            out < 8,
    {
        self.funct3.as_u8()
    }
}

/// Branch format: two sources and an even offset of 13 bits that the word holds in four pieces.
#[derive(Clone, Copy, Debug)]
pub struct B {
    pub rs1: U5,
    pub rs2: U5,
    pub funct3: U3,
    pub imm: U13,
}

impl B {
    /// The instruction that `word` encodes in this format.
    pub open spec fn of(word: u32) -> Self {
        B {
            funct3: U3::of_nat(crate::bit_field(word, 12, 14)),
            rs1: U5::of_nat(crate::bit_field(word, 15, 19)),
            rs2: U5::of_nat(crate::bit_field(word, 20, 24)),
            imm: U13::of_nat(crate::bit_field(word, 31, 31) * 4096
                + crate::bit_field(word, 7, 7) * 2048 + crate::bit_field(word, 25, 30) * 32
                + crate::bit_field(word, 8, 11) * 2),
        }
    }

    /// The instruction that a word encodes has the fields of the word.
    pub proof fn lemma_of(word: u32)
        ensures
            Self::of(word).decodes(word),
    {
        U3::lemma_of_nat(crate::bit_field(word, 12, 14));
        U5::lemma_of_nat(crate::bit_field(word, 15, 19));
        U5::lemma_of_nat(crate::bit_field(word, 20, 24));
        U13::lemma_of_nat(crate::bit_field(word, 31, 31) * 4096
            + crate::bit_field(word, 7, 7) * 2048 + crate::bit_field(word, 25, 30) * 32
            + crate::bit_field(word, 8, 11) * 2);
    }

    /// The fields are those of `word`, read at the positions of this format.
    pub open spec fn decodes(self, word: u32) -> bool {
        &&& self.funct3@ == crate::bit_field(word, 12, 14)
        &&& self.rs1@ == crate::bit_field(word, 15, 19)
        &&& self.rs2@ == crate::bit_field(word, 20, 24)
        &&& self.imm@ == crate::bit_field(word, 31, 31) * 4096
            + crate::bit_field(word, 7, 7) * 2048 + crate::bit_field(word, 25, 30) * 32
            + crate::bit_field(word, 8, 11) * 2
    }

    /// Reads the fields of this format from an instruction word.
    pub fn from_u32(word: u32) -> (out: Self)
        ensures
            out == Self::of(word),
            out.decodes(word),
    {
        proof {
            Self::lemma_of(word);
        }
        B {
            rs1: U5::from_field(field(word, 15, 19)),
            rs2: U5::from_field(field(word, 20, 24)),
            funct3: U3::from_field(field(word, 12, 14)),
            imm: U13::from_field(
                field(word, 31, 31) * 4096 + field(word, 7, 7) * 2048 + field(word, 25, 30) * 32
                    + field(word, 8, 11) * 2,
            ),
        }
    }

    /// The key of the operation: `funct3`.
    pub open spec fn id_spec(self) -> nat {
        self.funct3@
    }

    pub fn id(&self) -> (out: u8)
        ensures
            out == self.id_spec(),
            out < 8,
    {
        self.funct3.as_u8()
    }
}

/// Upper-immediate format: a destination and 20 bits that stand in the upper bits of a word.
#[derive(Clone, Copy, Debug)]
pub struct U {
    pub rd: U5,
    pub imm: u32,
}

impl U {
    /// The instruction that `word` encodes in this format.
    pub open spec fn of(word: u32) -> Self {
        U {
            rd: U5::of_nat(crate::bit_field(word, 7, 11)),
            imm: (crate::bit_field(word, 12, 31) * 4096) as u32,
        }
    }

    /// The instruction that a word encodes has the fields of the word.
    pub proof fn lemma_of(word: u32)
        ensures
            Self::of(word).decodes(word),
    {
        U5::lemma_of_nat(crate::bit_field(word, 7, 11));
    }

    /// The fields are those of `word`, read at the positions of this format.
    pub open spec fn decodes(self, word: u32) -> bool {
        &&& self.rd@ == crate::bit_field(word, 7, 11)
        &&& self.imm == crate::bit_field(word, 12, 31) * 4096
    }

    /// Reads the fields of this format from an instruction word.
    pub fn from_u32(word: u32) -> (out: Self)
        ensures
            out == Self::of(word),
            out.decodes(word),
    {
        proof {
            Self::lemma_of(word);
        }
        U { rd: U5::from_field(field(word, 7, 11)), imm: field(word, 12, 31) * 4096 }
    }
}

/// Jump format: a destination and an even offset of 21 bits that the word holds in four pieces.
#[derive(Clone, Copy, Debug)]
pub struct J {
    pub rd: U5,
    pub imm: U21,
}

impl J {
    /// The instruction that `word` encodes in this format.
    pub open spec fn of(word: u32) -> Self {
        J {
            rd: U5::of_nat(crate::bit_field(word, 7, 11)),
            imm: U21::of_nat(crate::bit_field(word, 31, 31) * 0x10_0000
                + crate::bit_field(word, 12, 19) * 4096 + crate::bit_field(word, 20, 20) * 2048
                + crate::bit_field(word, 21, 30) * 2),
        }
    }

    /// The instruction that a word encodes has the fields of the word.
    pub proof fn lemma_of(word: u32)
        ensures
            Self::of(word).decodes(word),
    {
        U5::lemma_of_nat(crate::bit_field(word, 7, 11));
        U21::lemma_of_nat(crate::bit_field(word, 31, 31) * 0x10_0000
            + crate::bit_field(word, 12, 19) * 4096 + crate::bit_field(word, 20, 20) * 2048
            + crate::bit_field(word, 21, 30) * 2);
    }

    /// The fields are those of `word`, read at the positions of this format.
    pub open spec fn decodes(self, word: u32) -> bool {
        &&& self.rd@ == crate::bit_field(word, 7, 11)
        &&& self.imm@ == crate::bit_field(word, 31, 31) * 0x10_0000
            + crate::bit_field(word, 12, 19) * 4096 + crate::bit_field(word, 20, 20)
            * 2048 + crate::bit_field(word, 21, 30) * 2
    }

    /// Reads the fields of this format from an instruction word.
    pub fn from_u32(word: u32) -> (out: Self)
        ensures
            out == Self::of(word),
            out.decodes(word),
    {
        proof {
            Self::lemma_of(word);
        }
        J {
            rd: U5::from_field(field(word, 7, 11)),
            imm: U21::from_field(
                field(word, 31, 31) * 0x10_0000 + field(word, 12, 19) * 4096 + field(word, 20, 20)
                    * 2048 + field(word, 21, 30) * 2,
            ),
        }
    }
}

/// Shift-immediate format: a source, a destination, a shift amount of up to six
/// bits and the six bits above it.
#[derive(Clone, Copy, Debug)]
pub struct Shift {
    pub rd: U5,
    pub rs1: U5,
    pub funct3: U3,
    pub shamt: U6,
    pub funct6: U6,
}

impl Shift {
    /// The instruction that `word` encodes in this format.
    pub open spec fn of(word: u32) -> Self {
        Shift {
            rd: U5::of_nat(crate::bit_field(word, 7, 11)),
            funct3: U3::of_nat(crate::bit_field(word, 12, 14)),
            rs1: U5::of_nat(crate::bit_field(word, 15, 19)),
            shamt: U6::of_nat(crate::bit_field(word, 20, 25)),
            funct6: U6::of_nat(crate::bit_field(word, 26, 31)),
        }
    }

    /// The instruction that a word encodes has the fields of the word.
    pub proof fn lemma_of(word: u32)
        ensures
            Self::of(word).decodes(word),
    {
        U5::lemma_of_nat(crate::bit_field(word, 7, 11));
        U3::lemma_of_nat(crate::bit_field(word, 12, 14));
        U5::lemma_of_nat(crate::bit_field(word, 15, 19));
        U6::lemma_of_nat(crate::bit_field(word, 20, 25));
        U6::lemma_of_nat(crate::bit_field(word, 26, 31));
    }

    /// The fields are those of `word`, read at the positions of this format.
    pub open spec fn decodes(self, word: u32) -> bool {
        &&& self.rd@ == crate::bit_field(word, 7, 11)
        &&& self.funct3@ == crate::bit_field(word, 12, 14)
        &&& self.rs1@ == crate::bit_field(word, 15, 19)
        &&& self.shamt@ == crate::bit_field(word, 20, 25)
        &&& self.funct6@ == crate::bit_field(word, 26, 31)
    }

    /// Reads the fields of this format from an instruction word.
    pub fn from_u32(word: u32) -> (out: Self)
        ensures
            out == Self::of(word),
            out.decodes(word),
    {
        proof {
            Self::lemma_of(word);
        }
        Shift {
            rd: U5::from_field(field(word, 7, 11)),
            rs1: U5::from_field(field(word, 15, 19)),
            funct3: U3::from_field(field(word, 12, 14)),
            shamt: U6::from_field(field(word, 20, 25)),
            funct6: U6::from_field(field(word, 26, 31)),
        }
    }

    /// The key of the operation: the seven upper bits of the word with the
    /// lowest of them cleared, above `funct3`. The cleared bit is the sixth bit
    /// of the shift amount.
    pub open spec fn id_spec(self) -> nat {
        self.funct6@ * 16 + self.funct3@
    }

    pub fn id(&self) -> (out: u16)
        ensures
            out == self.id_spec(),
            out < 1024,
    {
        self.funct6.as_u16() * 16 + self.funct3.as_u16()
    }
}

/// Four-register format of the fused multiply-add family.
#[derive(Clone, Copy, Debug)]
pub struct R4 {
    pub rd: U5,
    pub rs1: U5,
    pub rs2: U5,
    pub rs3: U5,
    pub funct3: U3,
    pub funct2: U2,
}

impl R4 {
    /// The instruction that `word` encodes in this format.
    pub open spec fn of(word: u32) -> Self {
        R4 {
            rd: U5::of_nat(crate::bit_field(word, 7, 11)),
            funct3: U3::of_nat(crate::bit_field(word, 12, 14)),
            rs1: U5::of_nat(crate::bit_field(word, 15, 19)),
            rs2: U5::of_nat(crate::bit_field(word, 20, 24)),
            funct2: U2::of_nat(crate::bit_field(word, 25, 26)),
            rs3: U5::of_nat(crate::bit_field(word, 27, 31)),
        }
    }

    /// The instruction that a word encodes has the fields of the word.
    pub proof fn lemma_of(word: u32)
        ensures
            Self::of(word).decodes(word),
    {
        U5::lemma_of_nat(crate::bit_field(word, 7, 11));
        U3::lemma_of_nat(crate::bit_field(word, 12, 14));
        U5::lemma_of_nat(crate::bit_field(word, 15, 19));
        U5::lemma_of_nat(crate::bit_field(word, 20, 24));
        U2::lemma_of_nat(crate::bit_field(word, 25, 26));
        U5::lemma_of_nat(crate::bit_field(word, 27, 31));
    }

    /// The fields are those of `word`, read at the positions of this format.
    pub open spec fn decodes(self, word: u32) -> bool {
        &&& self.rd@ == crate::bit_field(word, 7, 11)
        &&& self.funct3@ == crate::bit_field(word, 12, 14)
        &&& self.rs1@ == crate::bit_field(word, 15, 19)
        &&& self.rs2@ == crate::bit_field(word, 20, 24)
        &&& self.funct2@ == crate::bit_field(word, 25, 26)
        &&& self.rs3@ == crate::bit_field(word, 27, 31)
    }

    /// Reads the fields of this format from an instruction word.
    pub fn from_u32(word: u32) -> (out: Self)
        ensures
            out == Self::of(word),
            out.decodes(word),
    {
        proof {
            Self::lemma_of(word);
        }
        R4 {
            rd: U5::from_field(field(word, 7, 11)),
            rs1: U5::from_field(field(word, 15, 19)),
            rs2: U5::from_field(field(word, 20, 24)),
            rs3: U5::from_field(field(word, 27, 31)),
            funct3: U3::from_field(field(word, 12, 14)),
            funct2: U2::from_field(field(word, 25, 26)),
        }
    }
}

/// In every format, the instruction that `word` encodes has the fields of
/// `word`.
pub open spec fn well_decoded(word: u32) -> bool {
    &&& R::of(word).decodes(word)
    &&& I::of(word).decodes(word)
    &&& S::of(word).decodes(word)
    &&& B::of(word).decodes(word)
    &&& U::of(word).decodes(word)
    &&& J::of(word).decodes(word)
    &&& Shift::of(word).decodes(word)
    &&& R4::of(word).decodes(word)
}

/// Every word is well decoded.
pub proof fn lemma_well_decoded(word: u32)
    ensures
        well_decoded(word),
{
    R::lemma_of(word);
    I::lemma_of(word);
    S::lemma_of(word);
    B::lemma_of(word);
    U::lemma_of(word);
    J::lemma_of(word);
    Shift::lemma_of(word);
    R4::lemma_of(word);
}

} // verus!
