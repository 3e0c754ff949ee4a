use vstd::prelude::*;

verus! {

/// A CPU architecture, named by the 16-bit machine type code that PE images
/// carry in their COFF file header.
///
/// The two historical codes Alpha64 and AXP64 have the same value and are
/// one variant here.
#[derive(Debug, Clone, Copy, PartialEq, Eq, Structural)]
pub enum Architecture {
    I386,
    R3000,
    R4000,
    R10000,
    WceMipsV2,
    Alpha,
    Sh3,
    Sh3Dsp,
    Sh3E,
    Sh4,
    Sh5,
    Arm,
    Thumb,
    ArmNt,
    Am33,
    PowerPc,
    PowerPcFp,
    Ia64,
    Mips16,
    #[allow(non_camel_case_types)]
    Alpha64_Axp64,
    MipsFpu,
    MipsFpu16,
    Tricore,
    Cef,
    Ebc,
    Amd64,
    M32R,
    Arm64,
    Cee,
}

/// Machine type code that marks an image of unknown architecture.
pub const IMAGE_FILE_MACHINE_UNKNOWN: u16 = 0x0000;

/// Machine type code by which the platform asks for the host, not a guest.
pub const IMAGE_FILE_MACHINE_TARGET_HOST: u16 = 0x0001;

/// Machine type code of Intel 386 images.
pub const IMAGE_FILE_MACHINE_I386: u16 = 0x014c;

/// The machine type code of an architecture.
pub open spec fn code_of(a: Architecture) -> u16 {
    match a {
        Architecture::I386 => 0x014c,
        Architecture::R3000 => 0x0162,
        Architecture::R4000 => 0x0166,
        Architecture::R10000 => 0x0168,
        Architecture::WceMipsV2 => 0x0169,
        Architecture::Alpha => 0x0184,
        Architecture::Sh3 => 0x01a2,
        Architecture::Sh3Dsp => 0x01a3,
        Architecture::Sh3E => 0x01a4,
        Architecture::Sh4 => 0x01a6,
        Architecture::Sh5 => 0x01a8,
        Architecture::Arm => 0x01c0,
        Architecture::Thumb => 0x01c2,
        Architecture::ArmNt => 0x01c4,
        Architecture::Am33 => 0x01d3,
        Architecture::PowerPc => 0x01f0,
        Architecture::PowerPcFp => 0x01f1,
        Architecture::Ia64 => 0x0200,
        Architecture::Mips16 => 0x0266,
        Architecture::Alpha64_Axp64 => 0x0284,
        Architecture::MipsFpu => 0x0366,
        Architecture::MipsFpu16 => 0x0466,
        Architecture::Tricore => 0x0520,
        Architecture::Cef => 0x0cef,
        Architecture::Ebc => 0x0ebc,
        Architecture::Amd64 => 0x8664,
        Architecture::M32R => 0x9041,
        Architecture::Arm64 => 0xaa64,
        Architecture::Cee => 0xc0ee,
    }
}

/// The architecture that a machine type code names, if any.
pub open spec fn arch_of(code: u16) -> Option<Architecture> {
    if code == 0x014c {
        Some(Architecture::I386)
    } else if code == 0x0162 {
        Some(Architecture::R3000)
    } else if code == 0x0166 {
        Some(Architecture::R4000)
    } else if code == 0x0168 {
        Some(Architecture::R10000)
    } else if code == 0x0169 {
        Some(Architecture::WceMipsV2)
    } else if code == 0x0184 {
        Some(Architecture::Alpha)
    } else if code == 0x01a2 {
        Some(Architecture::Sh3)
    } else if code == 0x01a3 {
        Some(Architecture::Sh3Dsp)
    } else if code == 0x01a4 {
        Some(Architecture::Sh3E)
    } else if code == 0x01a6 {
        Some(Architecture::Sh4)
    } else if code == 0x01a8 {
        Some(Architecture::Sh5)
    } else if code == 0x01c0 {
        Some(Architecture::Arm)
    } else if code == 0x01c2 {
        Some(Architecture::Thumb)
    } else if code == 0x01c4 {
        Some(Architecture::ArmNt)
    } else if code == 0x01d3 {
        Some(Architecture::Am33)
    } else if code == 0x01f0 {
        Some(Architecture::PowerPc)
    } else if code == 0x01f1 {
        Some(Architecture::PowerPcFp)
    } else if code == 0x0200 {
        Some(Architecture::Ia64)
    } else if code == 0x0266 {
        Some(Architecture::Mips16)
    } else if code == 0x0284 {
        Some(Architecture::Alpha64_Axp64)
    } else if code == 0x0366 {
        Some(Architecture::MipsFpu)
    } else if code == 0x0466 {
        Some(Architecture::MipsFpu16)
    } else if code == 0x0520 {
        Some(Architecture::Tricore)
    } else if code == 0x0cef {
        Some(Architecture::Cef)
    } else if code == 0x0ebc {
        Some(Architecture::Ebc)
    } else if code == 0x8664 {
        Some(Architecture::Amd64)
    } else if code == 0x9041 {
        Some(Architecture::M32R)
    } else if code == 0xaa64 {
        Some(Architecture::Arm64)
    } else if code == 0xc0ee {
        Some(Architecture::Cee)
    } else {
        None
    }
}

/// The short form in which the architecture is shown to users.
pub open spec fn display_name(a: Architecture) -> &'static str {
    match a {
        Architecture::I386 => "x86",
        Architecture::R3000 => "R3000",
        Architecture::R4000 => "R4000",
        Architecture::R10000 => "R10000",
        Architecture::WceMipsV2 => "WceMipsV2",
        Architecture::Alpha => "Alpha",
        Architecture::Sh3 => "Sh3",
        Architecture::Sh3Dsp => "Sh3Dsp",
        Architecture::Sh3E => "Sh3E",
        Architecture::Sh4 => "Sh4",
        Architecture::Sh5 => "Sh5",
        Architecture::Arm => "Arm",
        Architecture::Thumb => "Thumb",
        Architecture::ArmNt => "ArmNt",
        Architecture::Am33 => "Am33",
        Architecture::PowerPc => "PowerPc",
        Architecture::PowerPcFp => "PowerPcFp",
        Architecture::Ia64 => "Ia64",
        Architecture::Mips16 => "Mips16",
        Architecture::Alpha64_Axp64 => "Alpha64_Axp64",
        Architecture::MipsFpu => "MipsFpu",
        Architecture::MipsFpu16 => "MipsFpu16",
        Architecture::Tricore => "Tricore",
        Architecture::Cef => "Cef",
        Architecture::Ebc => "Ebc",
        Architecture::Amd64 => "x64",
        Architecture::M32R => "M32R",
        Architecture::Arm64 => "ARM64",
        Architecture::Cee => "Cee",
    }
}

impl Architecture {
    /// The architecture that `code` names, or `None` where no variant has
    /// that code.
    pub fn from_code(code: u16) -> (r: Option<Architecture>)
        ensures
            r == arch_of(code),
    {
        match code {
            0x014c => Some(Architecture::I386),
            0x0162 => Some(Architecture::R3000),
            0x0166 => Some(Architecture::R4000),
            0x0168 => Some(Architecture::R10000),
            0x0169 => Some(Architecture::WceMipsV2),
            0x0184 => Some(Architecture::Alpha),
            0x01a2 => Some(Architecture::Sh3),
            0x01a3 => Some(Architecture::Sh3Dsp),
            0x01a4 => Some(Architecture::Sh3E),
            0x01a6 => Some(Architecture::Sh4),
            0x01a8 => Some(Architecture::Sh5),
            0x01c0 => Some(Architecture::Arm),
            0x01c2 => Some(Architecture::Thumb),
            0x01c4 => Some(Architecture::ArmNt),
            0x01d3 => Some(Architecture::Am33),
            0x01f0 => Some(Architecture::PowerPc),
            0x01f1 => Some(Architecture::PowerPcFp),
            0x0200 => Some(Architecture::Ia64),
            0x0266 => Some(Architecture::Mips16),
            0x0284 => Some(Architecture::Alpha64_Axp64),
            0x0366 => Some(Architecture::MipsFpu),
            0x0466 => Some(Architecture::MipsFpu16),
            0x0520 => Some(Architecture::Tricore),
            0x0cef => Some(Architecture::Cef),
            0x0ebc => Some(Architecture::Ebc),
            0x8664 => Some(Architecture::Amd64),
            0x9041 => Some(Architecture::M32R),
            0xaa64 => Some(Architecture::Arm64),
            0xc0ee => Some(Architecture::Cee),
            _ => None,
        }
    }

    /// The machine type code of this architecture.
    pub fn to_code(self) -> (r: u16)
        ensures
            r == code_of(self),
    {
        match self {
            Architecture::I386 => 0x014c,
            Architecture::R3000 => 0x0162,
            Architecture::R4000 => 0x0166,
            Architecture::R10000 => 0x0168,
            Architecture::WceMipsV2 => 0x0169,
            Architecture::Alpha => 0x0184,
            Architecture::Sh3 => 0x01a2,
            Architecture::Sh3Dsp => 0x01a3,
            Architecture::Sh3E => 0x01a4,
            Architecture::Sh4 => 0x01a6,
            Architecture::Sh5 => 0x01a8,
            Architecture::Arm => 0x01c0,
            Architecture::Thumb => 0x01c2,
            Architecture::ArmNt => 0x01c4,
            Architecture::Am33 => 0x01d3,
            Architecture::PowerPc => 0x01f0,
            Architecture::PowerPcFp => 0x01f1,
            Architecture::Ia64 => 0x0200,
            Architecture::Mips16 => 0x0266,
            Architecture::Alpha64_Axp64 => 0x0284,
            Architecture::MipsFpu => 0x0366,
            Architecture::MipsFpu16 => 0x0466,
            Architecture::Tricore => 0x0520,
            Architecture::Cef => 0x0cef,
            Architecture::Ebc => 0x0ebc,
            Architecture::Amd64 => 0x8664,
            Architecture::M32R => 0x9041,
            Architecture::Arm64 => 0xaa64,
            Architecture::Cee => 0xc0ee,
        }
    }

    /// The name shown to users: "x86", "x64" and "ARM64" for the three
    /// common architectures, the variant's own name for the others.
    pub fn display_name(self) -> (r: &'static str)
        ensures
            r == display_name(self),
    {
        match self {
            Architecture::I386 => "x86",
            Architecture::R3000 => "R3000",
            Architecture::R4000 => "R4000",
            Architecture::R10000 => "R10000",
            Architecture::WceMipsV2 => "WceMipsV2",
            Architecture::Alpha => "Alpha",
            Architecture::Sh3 => "Sh3",
            Architecture::Sh3Dsp => "Sh3Dsp",
            Architecture::Sh3E => "Sh3E",
            Architecture::Sh4 => "Sh4",
            Architecture::Sh5 => "Sh5",
            Architecture::Arm => "Arm",
            Architecture::Thumb => "Thumb",
            Architecture::ArmNt => "ArmNt",
            Architecture::Am33 => "Am33",
            Architecture::PowerPc => "PowerPc",
            Architecture::PowerPcFp => "PowerPcFp",
            Architecture::Ia64 => "Ia64",
            Architecture::Mips16 => "Mips16",
            Architecture::Alpha64_Axp64 => "Alpha64_Axp64",
            Architecture::MipsFpu => "MipsFpu",
            Architecture::MipsFpu16 => "MipsFpu16",
            Architecture::Tricore => "Tricore",
            Architecture::Cef => "Cef",
            Architecture::Ebc => "Ebc",
            Architecture::Amd64 => "x64",
            Architecture::M32R => "M32R",
            Architecture::Arm64 => "ARM64",
            Architecture::Cee => "Cee",
        }
    }

    /// The name shown to users, as an owned string.
    pub fn to_string(&self) -> (r: String)
        ensures
            r@ == display_name(*self)@,
    {
        String::from_str(self.display_name())
    }

    /// The architecture of the host whose native machine type code is
    /// `native_machine`; see `get_current_sys_architecture`.
    pub fn current(native_machine: u16) -> (r: Architecture)
        requires
            arch_of(native_machine) is Some,
        ensures
            arch_of(native_machine) == Some(r),
    {
        crate::detect::current::get_current_sys_architecture(native_machine)
    }
}

/// Decoding a known code and encoding the result gives the code back, and
/// encoding an architecture and decoding the code gives the architecture
/// back. Alpha64 and AXP64 share one code and one variant, so both names
/// round-trip to that single code.
pub proof fn lemma_code_round_trip(code: u16, a: Architecture)
    ensures
        arch_of(code) == Some(a) ==> code_of(a) == code,
        arch_of(code_of(a)) == Some(a),
{
}

/// A code that no architecture carries decodes to nothing; the platform's
/// "unknown" and "target host" codes are two such codes.
pub proof fn lemma_unknown_code_rejected(code: u16)
    requires
        forall|a: Architecture| code_of(a) != code,
    ensures
        arch_of(code) is None,
        arch_of(IMAGE_FILE_MACHINE_UNKNOWN) is None,
        arch_of(IMAGE_FILE_MACHINE_TARGET_HOST) is None,
{
    if let Some(a) = arch_of(code) {
        lemma_code_round_trip(code, a);
    }
}

impl From<Architecture> for u16 {
    fn from(a: Architecture) -> (r: u16)
        ensures
            r == code_of(a),
    {
        a.to_code()
    }
}

impl vstd::std_specs::convert::FromSpecImpl<Architecture> for u16 {
    open spec fn obeys_from_spec() -> bool {
        true
    }

    open spec fn from_spec(a: Architecture) -> u16 {
        code_of(a)
    }
}

} // verus!
