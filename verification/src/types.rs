//! The static lookup tables: architecture, OS, subsystem and file-type codes
//! mapped to their descriptive names, one enum per namespace. The tables are
//! pure functions of the code, immutable for the process lifetime.

use vstd::prelude::*;

verus! {

/// The instruction-set architectures an ELF header can name.
#[derive(Clone, Copy, Debug, PartialEq, Eq, Structural)]
pub enum ElfInstructionSet {
    Undefined,
    WE32100,
    SPARC,
    X86,
    M68k,
    M88k,
    IntelMCU,
    I860,
    MIPS,
    IBMSystem370,
    MIPSRS3000Le,
    FutureUse,
    HPPPRISC,
    I960,
    PPC,
    PPC64,
    S390,
    S390x,
    IBMSPUSPC,
    NECV800,
    FR20,
    RH32,
    MotorolaRCE,
    Arm32,
    DigitalAlpha,
    SuperH,
    SPARCVersion9,
    SiemensTriCore,
    ArgonautRISCCore,
    H8300,
    H8300H,
    H8S,
    H8500,
    IA64,
    StanfordMIPSX,
    MotorolaColdFire,
    MotorolaM68HC12,
    FujitsuMMA,
    SiemensPCP,
    SonyCellCPU,
    DensoNDR1,
    MotorolaStarCore,
    ToyotaME16,
    STMicroelectronicsST100,
    AdvancedLogicCorpTinyJ,
    X86_64,
    SonyDSP,
    PDP10,
    PDP11,
    SiemensFX66,
    STMicroelectronicsST9Plus,
    STMicroelectronicsST7,
    MC68HC16,
    MC68HC11,
    MC68HC08,
    MC68HC05,
    SiliconGraphicsSVx,
    STMicroelectronicsST19,
    DigitalVAX,
    ETRAXCRIS,
    InfineonTechnologiesMP32,
    Element14DSP64,
    LSILogicDSP16,
    TMS320C6000,
    MCSTElbrusE2k,
    Arm64,
    ZilogZ80,
    RISCV,
    BPF,
    WDC65C816,
}

impl ElfInstructionSet {
    /// The descriptive name of this instruction set.
    pub open spec fn spec_name(self) -> Seq<char> {
        match self {
            ElfInstructionSet::Undefined => "Undefined"@,
            ElfInstructionSet::WE32100 => "AT&T WE 32100"@,
            ElfInstructionSet::SPARC => "SPARC"@,
            ElfInstructionSet::X86 => "x86"@,
            ElfInstructionSet::M68k => "Motorola 68000 (M68k)"@,
            ElfInstructionSet::M88k => "Motorola 88000 (M88k)"@,
            ElfInstructionSet::IntelMCU => "Intel MCU"@,
            ElfInstructionSet::I860 => "Intel 80860"@,
            ElfInstructionSet::MIPS => "MIPS"@,
            ElfInstructionSet::IBMSystem370 => "IBM System/370"@,
            ElfInstructionSet::MIPSRS3000Le => "MIPS RS3000 (Little-endian)"@,
            ElfInstructionSet::FutureUse => "Reserved for future use"@,
            ElfInstructionSet::HPPPRISC => "HP PA-RISC"@,
            ElfInstructionSet::I960 => "Intel 80960"@,
            ElfInstructionSet::PPC => "PowerPC"@,
            ElfInstructionSet::PPC64 => "PowerPC (64-Bit)"@,
            ElfInstructionSet::S390 => "S390"@,
            ElfInstructionSet::S390x => "S390x"@,
            ElfInstructionSet::IBMSPUSPC => "IBM SPU/SPC"@,
            ElfInstructionSet::NECV800 => "NEC V800"@,
            ElfInstructionSet::FR20 => "Fujitsu FR20"@,
            ElfInstructionSet::RH32 => "TRW RH-32"@,
            ElfInstructionSet::MotorolaRCE => "Motorola RCE"@,
            ElfInstructionSet::Arm32 => "Arm (32-Bit)"@,
            ElfInstructionSet::DigitalAlpha => "Digital Alpha"@,
            ElfInstructionSet::SuperH => "SuperH"@,
            ElfInstructionSet::SPARCVersion9 => "SPARC version 9"@,
            ElfInstructionSet::SiemensTriCore => "Siemens TriCore"@,
            ElfInstructionSet::ArgonautRISCCore => "Argonaut RISC Core"@,
            ElfInstructionSet::H8300 => "Hitachi H8/300"@,
            ElfInstructionSet::H8300H => "Hitachi H8/300H"@,
            ElfInstructionSet::H8S => "Hitachi H8S"@,
            ElfInstructionSet::H8500 => "Hitachi H8/500"@,
            ElfInstructionSet::IA64 => "Intel Itanium"@,
            ElfInstructionSet::StanfordMIPSX => "Stanford MIPS-X"@,
            ElfInstructionSet::MotorolaColdFire => "Motorola ColdFire"@,
            ElfInstructionSet::MotorolaM68HC12 => "Motorola M68HC12"@,
            ElfInstructionSet::FujitsuMMA => "Fujitsu MMA multimedia accelerator"@,
            ElfInstructionSet::SiemensPCP => "Siemens PCP"@,
            ElfInstructionSet::SonyCellCPU => "Sony nCPU Embedded RISC"@,
            ElfInstructionSet::DensoNDR1 => "Denso NDR1"@,
            ElfInstructionSet::MotorolaStarCore => "Motorola Star*Core"@,
            ElfInstructionSet::ToyotaME16 => "Toyota ME16"@,
            ElfInstructionSet::STMicroelectronicsST100 => "STMicroelectronics ST100"@,
            ElfInstructionSet::AdvancedLogicCorpTinyJ => "Advanced Logic Corp. TinyJ"@,
            ElfInstructionSet::X86_64 => "x86-64"@,
            ElfInstructionSet::SonyDSP => "Sony DSP processor"@,
            ElfInstructionSet::PDP10 => "Digital Equipment Corp. PDP-10"@,
            ElfInstructionSet::PDP11 => "Digital Equipment Corp. PDP-11"@,
            ElfInstructionSet::SiemensFX66 => "Siemens FX66 microcontroller"@,
            ElfInstructionSet::STMicroelectronicsST9Plus => "STMicroelectronics ST9+ 8/16-Bit microcontroller"@,
            ElfInstructionSet::STMicroelectronicsST7 => "STMicroelectronics ST7 8-Bit microcontroller"@,
            ElfInstructionSet::MC68HC16 => "Motorola MC68HC16 microcontroller"@,
            ElfInstructionSet::MC68HC11 => "Motorola MC68HC11 microcontroller"@,
            ElfInstructionSet::MC68HC08 => "Motorola MC68HC08 microcontroller"@,
            ElfInstructionSet::MC68HC05 => "Motorola MC68HC05 microcontroller"@,
            ElfInstructionSet::SiliconGraphicsSVx => "Silicon Graphics SVx"@,
            ElfInstructionSet::STMicroelectronicsST19 => "STMicroelectronics ST19 8-Bit microcontroller"@,
            ElfInstructionSet::DigitalVAX => "Digital VAX"@,
            ElfInstructionSet::ETRAXCRIS => "Axis Communications (32-Bit) embedded processor"@,
            ElfInstructionSet::InfineonTechnologiesMP32 => "Infineon Technologies (32-Bit) embedded processor"@,
            ElfInstructionSet::Element14DSP64 => "Element 14 (64-Bit) DSP processor"@,
            ElfInstructionSet::LSILogicDSP16 => "LSI Logic 16-Bit DSP processor"@,
            ElfInstructionSet::TMS320C6000 => "TMS320C6000 family"@,
            ElfInstructionSet::MCSTElbrusE2k => "MCST Elbrus e2k"@,
            ElfInstructionSet::Arm64 => "Arm (64-Bit)"@,
            ElfInstructionSet::ZilogZ80 => "Zilog Z80"@,
            ElfInstructionSet::RISCV => "RISC-V"@,
            ElfInstructionSet::BPF => "Berkeley packet filter"@,
            ElfInstructionSet::WDC65C816 => "WDC 65C816"@,
        }
    }

    /// Returns the descriptive name of this instruction set.
    pub fn name(&self) -> (r: String)
        ensures
            r@ == self.spec_name(),
    {
        match self {
            ElfInstructionSet::Undefined => "Undefined".to_owned(),
            ElfInstructionSet::WE32100 => "AT&T WE 32100".to_owned(),
            ElfInstructionSet::SPARC => "SPARC".to_owned(),
            ElfInstructionSet::X86 => "x86".to_owned(),
            ElfInstructionSet::M68k => "Motorola 68000 (M68k)".to_owned(),
            ElfInstructionSet::M88k => "Motorola 88000 (M88k)".to_owned(),
            ElfInstructionSet::IntelMCU => "Intel MCU".to_owned(),
            ElfInstructionSet::I860 => "Intel 80860".to_owned(),
            ElfInstructionSet::MIPS => "MIPS".to_owned(),
            ElfInstructionSet::IBMSystem370 => "IBM System/370".to_owned(),
            ElfInstructionSet::MIPSRS3000Le => "MIPS RS3000 (Little-endian)".to_owned(),
            ElfInstructionSet::FutureUse => "Reserved for future use".to_owned(),
            ElfInstructionSet::HPPPRISC => "HP PA-RISC".to_owned(),
            ElfInstructionSet::I960 => "Intel 80960".to_owned(),
            ElfInstructionSet::PPC => "PowerPC".to_owned(),
            ElfInstructionSet::PPC64 => "PowerPC (64-Bit)".to_owned(),
            ElfInstructionSet::S390 => "S390".to_owned(),
            ElfInstructionSet::S390x => "S390x".to_owned(),
            ElfInstructionSet::IBMSPUSPC => "IBM SPU/SPC".to_owned(),
            ElfInstructionSet::NECV800 => "NEC V800".to_owned(),
            ElfInstructionSet::FR20 => "Fujitsu FR20".to_owned(),
            ElfInstructionSet::RH32 => "TRW RH-32".to_owned(),
            ElfInstructionSet::MotorolaRCE => "Motorola RCE".to_owned(),
            ElfInstructionSet::Arm32 => "Arm (32-Bit)".to_owned(),
            ElfInstructionSet::DigitalAlpha => "Digital Alpha".to_owned(),
            ElfInstructionSet::SuperH => "SuperH".to_owned(),
            ElfInstructionSet::SPARCVersion9 => "SPARC version 9".to_owned(),
            ElfInstructionSet::SiemensTriCore => "Siemens TriCore".to_owned(),
            ElfInstructionSet::ArgonautRISCCore => "Argonaut RISC Core".to_owned(),
            ElfInstructionSet::H8300 => "Hitachi H8/300".to_owned(),
            ElfInstructionSet::H8300H => "Hitachi H8/300H".to_owned(),
            ElfInstructionSet::H8S => "Hitachi H8S".to_owned(),
            ElfInstructionSet::H8500 => "Hitachi H8/500".to_owned(),
            ElfInstructionSet::IA64 => "Intel Itanium".to_owned(),
            ElfInstructionSet::StanfordMIPSX => "Stanford MIPS-X".to_owned(),
            ElfInstructionSet::MotorolaColdFire => "Motorola ColdFire".to_owned(),
            ElfInstructionSet::MotorolaM68HC12 => "Motorola M68HC12".to_owned(),
            ElfInstructionSet::FujitsuMMA => "Fujitsu MMA multimedia accelerator".to_owned(),
            ElfInstructionSet::SiemensPCP => "Siemens PCP".to_owned(),
            ElfInstructionSet::SonyCellCPU => "Sony nCPU Embedded RISC".to_owned(),
            ElfInstructionSet::DensoNDR1 => "Denso NDR1".to_owned(),
            ElfInstructionSet::MotorolaStarCore => "Motorola Star*Core".to_owned(),
            ElfInstructionSet::ToyotaME16 => "Toyota ME16".to_owned(),
            ElfInstructionSet::STMicroelectronicsST100 => "STMicroelectronics ST100".to_owned(),
            ElfInstructionSet::AdvancedLogicCorpTinyJ => "Advanced Logic Corp. TinyJ".to_owned(),
            ElfInstructionSet::X86_64 => "x86-64".to_owned(),
            ElfInstructionSet::SonyDSP => "Sony DSP processor".to_owned(),
            ElfInstructionSet::PDP10 => "Digital Equipment Corp. PDP-10".to_owned(),
            ElfInstructionSet::PDP11 => "Digital Equipment Corp. PDP-11".to_owned(),
            ElfInstructionSet::SiemensFX66 => "Siemens FX66 microcontroller".to_owned(),
            ElfInstructionSet::STMicroelectronicsST9Plus => "STMicroelectronics ST9+ 8/16-Bit microcontroller".to_owned(),
            ElfInstructionSet::STMicroelectronicsST7 => "STMicroelectronics ST7 8-Bit microcontroller".to_owned(),
            ElfInstructionSet::MC68HC16 => "Motorola MC68HC16 microcontroller".to_owned(),
            ElfInstructionSet::MC68HC11 => "Motorola MC68HC11 microcontroller".to_owned(),
            ElfInstructionSet::MC68HC08 => "Motorola MC68HC08 microcontroller".to_owned(),
            ElfInstructionSet::MC68HC05 => "Motorola MC68HC05 microcontroller".to_owned(),
            ElfInstructionSet::SiliconGraphicsSVx => "Silicon Graphics SVx".to_owned(),
            ElfInstructionSet::STMicroelectronicsST19 => "STMicroelectronics ST19 8-Bit microcontroller".to_owned(),
            ElfInstructionSet::DigitalVAX => "Digital VAX".to_owned(),
            ElfInstructionSet::ETRAXCRIS => "Axis Communications (32-Bit) embedded processor".to_owned(),
            ElfInstructionSet::InfineonTechnologiesMP32 => "Infineon Technologies (32-Bit) embedded processor".to_owned(),
            ElfInstructionSet::Element14DSP64 => "Element 14 (64-Bit) DSP processor".to_owned(),
            ElfInstructionSet::LSILogicDSP16 => "LSI Logic 16-Bit DSP processor".to_owned(),
            ElfInstructionSet::TMS320C6000 => "TMS320C6000 family".to_owned(),
            ElfInstructionSet::MCSTElbrusE2k => "MCST Elbrus e2k".to_owned(),
            ElfInstructionSet::Arm64 => "Arm (64-Bit)".to_owned(),
            ElfInstructionSet::ZilogZ80 => "Zilog Z80".to_owned(),
            ElfInstructionSet::RISCV => "RISC-V".to_owned(),
            ElfInstructionSet::BPF => "Berkeley packet filter".to_owned(),
            ElfInstructionSet::WDC65C816 => "WDC 65C816".to_owned(),
        }
    }
}

/// The instruction set an ELF machine code names, if it is a known one.
pub open spec fn spec_elf_machine(code: u16) -> Option<ElfInstructionSet> {
    match code {
        0x00 => Some(ElfInstructionSet::Undefined),
        0x01 => Some(ElfInstructionSet::WE32100),
        0x02 => Some(ElfInstructionSet::SPARC),
        0x03 => Some(ElfInstructionSet::X86),
        0x04 => Some(ElfInstructionSet::M68k),
        0x05 => Some(ElfInstructionSet::M88k),
        0x06 => Some(ElfInstructionSet::IntelMCU),
        0x07 => Some(ElfInstructionSet::I860),
        0x08 => Some(ElfInstructionSet::MIPS),
        0x09 => Some(ElfInstructionSet::IBMSystem370),
        0x0A => Some(ElfInstructionSet::MIPSRS3000Le),
        0x0B | 0x0C | 0x0D | 0x0E => Some(ElfInstructionSet::FutureUse),
        0x0F => Some(ElfInstructionSet::HPPPRISC),
        0x13 => Some(ElfInstructionSet::I960),
        0x14 => Some(ElfInstructionSet::PPC),
        0x15 => Some(ElfInstructionSet::PPC64),
        0x16 => Some(ElfInstructionSet::S390),
        0x17 => Some(ElfInstructionSet::S390x),
        0x18 | 0x19 | 0x20 | 0x21 | 0x22 | 0x23 => Some(ElfInstructionSet::FutureUse),
        0x24 => Some(ElfInstructionSet::NECV800),
        0x25 => Some(ElfInstructionSet::FR20),
        0x26 => Some(ElfInstructionSet::RH32),
        0x27 => Some(ElfInstructionSet::MotorolaRCE),
        0x28 => Some(ElfInstructionSet::Arm32),
        0x29 => Some(ElfInstructionSet::DigitalAlpha),
        0x2A => Some(ElfInstructionSet::SuperH),
        0x2B => Some(ElfInstructionSet::SPARCVersion9),
        0x2C => Some(ElfInstructionSet::SiemensTriCore),
        0x2D => Some(ElfInstructionSet::ArgonautRISCCore),
        0x2E => Some(ElfInstructionSet::H8300),
        0x2F => Some(ElfInstructionSet::H8300H),
        0x30 => Some(ElfInstructionSet::H8S),
        0x31 => Some(ElfInstructionSet::H8500),
        0x32 => Some(ElfInstructionSet::IA64),
        0x33 => Some(ElfInstructionSet::StanfordMIPSX),
        0x34 => Some(ElfInstructionSet::MotorolaColdFire),
        0x35 => Some(ElfInstructionSet::MotorolaM68HC12),
        0x36 => Some(ElfInstructionSet::FujitsuMMA),
        0x37 => Some(ElfInstructionSet::SiemensPCP),
        0x38 => Some(ElfInstructionSet::SonyCellCPU),
        0x39 => Some(ElfInstructionSet::DensoNDR1),
        0x3A => Some(ElfInstructionSet::MotorolaStarCore),
        0x3B => Some(ElfInstructionSet::ToyotaME16),
        0x3C => Some(ElfInstructionSet::STMicroelectronicsST100),
        0x3D => Some(ElfInstructionSet::AdvancedLogicCorpTinyJ),
        0x3E => Some(ElfInstructionSet::X86_64),
        0x3F => Some(ElfInstructionSet::SonyDSP),
        0x40 => Some(ElfInstructionSet::PDP10),
        0x41 => Some(ElfInstructionSet::PDP11),
        0x42 => Some(ElfInstructionSet::SiemensFX66),
        0x43 => Some(ElfInstructionSet::STMicroelectronicsST9Plus),
        0x44 => Some(ElfInstructionSet::STMicroelectronicsST7),
        0x45 => Some(ElfInstructionSet::MC68HC16),
        0x46 => Some(ElfInstructionSet::MC68HC11),
        0x47 => Some(ElfInstructionSet::MC68HC08),
        0x48 => Some(ElfInstructionSet::MC68HC05),
        0x49 => Some(ElfInstructionSet::SiliconGraphicsSVx),
        0x4A => Some(ElfInstructionSet::STMicroelectronicsST19),
        0x4B => Some(ElfInstructionSet::DigitalVAX),
        0x4C => Some(ElfInstructionSet::ETRAXCRIS),
        0x4D => Some(ElfInstructionSet::InfineonTechnologiesMP32),
        0x4E => Some(ElfInstructionSet::Element14DSP64),
        0x4F => Some(ElfInstructionSet::LSILogicDSP16),
        0x8C => Some(ElfInstructionSet::TMS320C6000),
        0xAF => Some(ElfInstructionSet::MCSTElbrusE2k),
        0xB7 => Some(ElfInstructionSet::Arm64),
        0xDC => Some(ElfInstructionSet::ZilogZ80),
        0xF3 => Some(ElfInstructionSet::RISCV),
        0xF7 => Some(ElfInstructionSet::BPF),
        0x101 => Some(ElfInstructionSet::WDC65C816),
        _ => None,
    }
}

/// Looks up the instruction set named by an ELF machine code.
pub fn elf_machine(code: u16) -> (r: Option<ElfInstructionSet>)
    ensures
        r == spec_elf_machine(code),
{
    match code {
        0x00 => Some(ElfInstructionSet::Undefined),
        0x01 => Some(ElfInstructionSet::WE32100),
        0x02 => Some(ElfInstructionSet::SPARC),
        0x03 => Some(ElfInstructionSet::X86),
        0x04 => Some(ElfInstructionSet::M68k),
        0x05 => Some(ElfInstructionSet::M88k),
        0x06 => Some(ElfInstructionSet::IntelMCU),
        0x07 => Some(ElfInstructionSet::I860),
        0x08 => Some(ElfInstructionSet::MIPS),
        0x09 => Some(ElfInstructionSet::IBMSystem370),
        0x0A => Some(ElfInstructionSet::MIPSRS3000Le),
        0x0B | 0x0C | 0x0D | 0x0E => Some(ElfInstructionSet::FutureUse),
        0x0F => Some(ElfInstructionSet::HPPPRISC),
        0x13 => Some(ElfInstructionSet::I960),
        0x14 => Some(ElfInstructionSet::PPC),
        0x15 => Some(ElfInstructionSet::PPC64),
        0x16 => Some(ElfInstructionSet::S390),
        0x17 => Some(ElfInstructionSet::S390x),
        0x18 | 0x19 | 0x20 | 0x21 | 0x22 | 0x23 => Some(ElfInstructionSet::FutureUse),
        0x24 => Some(ElfInstructionSet::NECV800),
        0x25 => Some(ElfInstructionSet::FR20),
        0x26 => Some(ElfInstructionSet::RH32),
        0x27 => Some(ElfInstructionSet::MotorolaRCE),
        0x28 => Some(ElfInstructionSet::Arm32),
        0x29 => Some(ElfInstructionSet::DigitalAlpha),
        0x2A => Some(ElfInstructionSet::SuperH),
        0x2B => Some(ElfInstructionSet::SPARCVersion9),
        0x2C => Some(ElfInstructionSet::SiemensTriCore),
        0x2D => Some(ElfInstructionSet::ArgonautRISCCore),
        0x2E => Some(ElfInstructionSet::H8300),
        0x2F => Some(ElfInstructionSet::H8300H),
        0x30 => Some(ElfInstructionSet::H8S),
        0x31 => Some(ElfInstructionSet::H8500),
        0x32 => Some(ElfInstructionSet::IA64),
        0x33 => Some(ElfInstructionSet::StanfordMIPSX),
        0x34 => Some(ElfInstructionSet::MotorolaColdFire),
        0x35 => Some(ElfInstructionSet::MotorolaM68HC12),
        0x36 => Some(ElfInstructionSet::FujitsuMMA),
        0x37 => Some(ElfInstructionSet::SiemensPCP),
        0x38 => Some(ElfInstructionSet::SonyCellCPU),
        0x39 => Some(ElfInstructionSet::DensoNDR1),
        0x3A => Some(ElfInstructionSet::MotorolaStarCore),
        0x3B => Some(ElfInstructionSet::ToyotaME16),
        0x3C => Some(ElfInstructionSet::STMicroelectronicsST100),
        0x3D => Some(ElfInstructionSet::AdvancedLogicCorpTinyJ),
        0x3E => Some(ElfInstructionSet::X86_64),
        0x3F => Some(ElfInstructionSet::SonyDSP),
        0x40 => Some(ElfInstructionSet::PDP10),
        0x41 => Some(ElfInstructionSet::PDP11),
        0x42 => Some(ElfInstructionSet::SiemensFX66),
        0x43 => Some(ElfInstructionSet::STMicroelectronicsST9Plus),
        0x44 => Some(ElfInstructionSet::STMicroelectronicsST7),
        0x45 => Some(ElfInstructionSet::MC68HC16),
        0x46 => Some(ElfInstructionSet::MC68HC11),
        0x47 => Some(ElfInstructionSet::MC68HC08),
        0x48 => Some(ElfInstructionSet::MC68HC05),
        0x49 => Some(ElfInstructionSet::SiliconGraphicsSVx),
        0x4A => Some(ElfInstructionSet::STMicroelectronicsST19),
        0x4B => Some(ElfInstructionSet::DigitalVAX),
        0x4C => Some(ElfInstructionSet::ETRAXCRIS),
        0x4D => Some(ElfInstructionSet::InfineonTechnologiesMP32),
        0x4E => Some(ElfInstructionSet::Element14DSP64),
        0x4F => Some(ElfInstructionSet::LSILogicDSP16),
        0x8C => Some(ElfInstructionSet::TMS320C6000),
        0xAF => Some(ElfInstructionSet::MCSTElbrusE2k),
        0xB7 => Some(ElfInstructionSet::Arm64),
        0xDC => Some(ElfInstructionSet::ZilogZ80),
        0xF3 => Some(ElfInstructionSet::RISCV),
        0xF7 => Some(ElfInstructionSet::BPF),
        0x101 => Some(ElfInstructionSet::WDC65C816),
        _ => None,
    }
}

/// The operating systems an ELF OS/ABI byte (or the string-table heuristic)
/// can resolve to.
#[derive(Clone, Copy, Debug, PartialEq, Eq, Structural)]
pub enum ElfOS {
    SystemV,
    HPUX,
    NetBSD,
    Linux,
    GNUHurd,
    Solaris,
    AIXMonterey,
    IRIX,
    FreeBSD,
    Tru64,
    NovellModesto,
    OpenBSD,
    OpenVMS,
    NonStopKernel,
    AROS,
    FenixOS,
    CloudABI,
    OpenVOS,
    Illumos,
    SerenityOS,
    Android,
    Undefined,
}

impl ElfOS {
    /// The descriptive name of this operating system.
    pub open spec fn spec_name(self) -> Seq<char> {
        match self {
            ElfOS::SystemV => "System V"@,
            ElfOS::HPUX => "HP-UX"@,
            ElfOS::NetBSD => "NetBSD"@,
            ElfOS::Linux => "Linux"@,
            ElfOS::GNUHurd => "GNU Hurd"@,
            ElfOS::Solaris => "Solaris"@,
            ElfOS::AIXMonterey => "AIX (Monterey)"@,
            ElfOS::IRIX => "IRIX"@,
            ElfOS::FreeBSD => "FreeBSD"@,
            ElfOS::Tru64 => "Tru64"@,
            ElfOS::NovellModesto => "Novell Modesto"@,
            ElfOS::OpenBSD => "OpenBSD"@,
            ElfOS::OpenVMS => "OpenVMS"@,
            ElfOS::NonStopKernel => "NonStop Kernel"@,
            ElfOS::AROS => "AROS"@,
            ElfOS::FenixOS => "FenixOS"@,
            ElfOS::CloudABI => "Nuxi CloudABI"@,
            ElfOS::OpenVOS => "OpenVOS"@,
            ElfOS::Illumos => "Illumos"@,
            ElfOS::SerenityOS => "SerenityOS"@,
            ElfOS::Android => "Android"@,
            ElfOS::Undefined => "Undefined"@,
        }
    }

    /// Returns the descriptive name of this operating system.
    pub fn name(&self) -> (r: String)
        ensures
            r@ == self.spec_name(),
    {
        match self {
            ElfOS::SystemV => "System V".to_owned(),
            ElfOS::HPUX => "HP-UX".to_owned(),
            ElfOS::NetBSD => "NetBSD".to_owned(),
            ElfOS::Linux => "Linux".to_owned(),
            ElfOS::GNUHurd => "GNU Hurd".to_owned(),
            ElfOS::Solaris => "Solaris".to_owned(),
            ElfOS::AIXMonterey => "AIX (Monterey)".to_owned(),
            ElfOS::IRIX => "IRIX".to_owned(),
            ElfOS::FreeBSD => "FreeBSD".to_owned(),
            ElfOS::Tru64 => "Tru64".to_owned(),
            ElfOS::NovellModesto => "Novell Modesto".to_owned(),
            ElfOS::OpenBSD => "OpenBSD".to_owned(),
            ElfOS::OpenVMS => "OpenVMS".to_owned(),
            ElfOS::NonStopKernel => "NonStop Kernel".to_owned(),
            ElfOS::AROS => "AROS".to_owned(),
            ElfOS::FenixOS => "FenixOS".to_owned(),
            ElfOS::CloudABI => "Nuxi CloudABI".to_owned(),
            ElfOS::OpenVOS => "OpenVOS".to_owned(),
            ElfOS::Illumos => "Illumos".to_owned(),
            ElfOS::SerenityOS => "SerenityOS".to_owned(),
            ElfOS::Android => "Android".to_owned(),
            ElfOS::Undefined => "Undefined".to_owned(),
        }
    }
}

/// The kinds of file an ELF type code can name.
#[derive(Clone, Copy, Debug, PartialEq, Eq, Structural)]
pub enum ElfFileType {
    Undefined,
    Relocatable,
    Executable,
    SharedObject,
    CoreFile,
    OsSpecific,
    ProcessorSpecific,
}

impl ElfFileType {
    /// The descriptive name of this file type.
    pub open spec fn spec_name(self) -> Seq<char> {
        match self {
            ElfFileType::Undefined => "Undefined"@,
            ElfFileType::Relocatable => "Object file"@,
            ElfFileType::Executable => "Executable"@,
            ElfFileType::SharedObject => "Shared object"@,
            ElfFileType::CoreFile => "Core file"@,
            ElfFileType::OsSpecific => "OS-specific"@,
            ElfFileType::ProcessorSpecific => "CPU-specific"@,
        }
    }

    /// Returns the descriptive name of this file type.
    pub fn name(&self) -> (r: String)
        ensures
            r@ == self.spec_name(),
    {
        match self {
            ElfFileType::Undefined => "Undefined".to_owned(),
            ElfFileType::Relocatable => "Object file".to_owned(),
            ElfFileType::Executable => "Executable".to_owned(),
            ElfFileType::SharedObject => "Shared object".to_owned(),
            ElfFileType::CoreFile => "Core file".to_owned(),
            ElfFileType::OsSpecific => "OS-specific".to_owned(),
            ElfFileType::ProcessorSpecific => "CPU-specific".to_owned(),
        }
    }
}

/// The file type an ELF type code names, if it is a known one.
pub open spec fn spec_elf_type(code: u16) -> Option<ElfFileType> {
    match code {
        0x00 => Some(ElfFileType::Undefined),
        0x01 => Some(ElfFileType::Relocatable),
        0x02 => Some(ElfFileType::Executable),
        0x03 => Some(ElfFileType::SharedObject),
        0x04 => Some(ElfFileType::CoreFile),
        0xFE00 | 0xFEFF => Some(ElfFileType::OsSpecific),
        0xFF00 | 0xFFFF => Some(ElfFileType::ProcessorSpecific),
        _ => None,
    }
}

/// Looks up the file type named by an ELF type code.
pub fn elf_type(code: u16) -> (r: Option<ElfFileType>)
    ensures
        r == spec_elf_type(code),
{
    match code {
        0x00 => Some(ElfFileType::Undefined),
        0x01 => Some(ElfFileType::Relocatable),
        0x02 => Some(ElfFileType::Executable),
        0x03 => Some(ElfFileType::SharedObject),
        0x04 => Some(ElfFileType::CoreFile),
        0xFE00 | 0xFEFF => Some(ElfFileType::OsSpecific),
        0xFF00 | 0xFFFF => Some(ElfFileType::ProcessorSpecific),
        _ => None,
    }
}

/// The CPU families a Mach-O header can name.
#[derive(Clone, Copy, Debug, PartialEq, Eq, Structural)]
pub enum MachOCpuType {
    VAX,
    ROMP,
    NS32032,
    NS32332,
    MC680x0,
    X86,
    MIPS,
    NS32352,
    MC98000,
    HPPA,
    ARM,
    MC88000,
    SPARC,
    I860Be,
    I860Le,
    RS6000,
    PPC,
    ARM64,
    X86_64,
    Unknown,
}

impl MachOCpuType {
    /// The descriptive name of this CPU family.
    pub open spec fn spec_name(self) -> Seq<char> {
        match self {
            MachOCpuType::VAX => "VAX"@,
            MachOCpuType::ROMP => "ROMP"@,
            MachOCpuType::NS32032 => "NS32032"@,
            MachOCpuType::NS32332 => "NS32332"@,
            MachOCpuType::MC680x0 => "MC680x0"@,
            MachOCpuType::X86 => "x86"@,
            MachOCpuType::MIPS => "MIPS"@,
            MachOCpuType::NS32352 => "NS32352"@,
            MachOCpuType::MC98000 => "MC98000"@,
            MachOCpuType::HPPA => "HP-PA"@,
            MachOCpuType::ARM => "ARM"@,
            MachOCpuType::MC88000 => "MC88000"@,
            MachOCpuType::SPARC => "SPARC"@,
            MachOCpuType::I860Be => "i860 (Big-endian)"@,
            MachOCpuType::I860Le => "i860 (Little-endian)"@,
            MachOCpuType::RS6000 => "RS/6000"@,
            MachOCpuType::PPC => "PowerPC"@,
            MachOCpuType::ARM64 => "ARM64"@,
            MachOCpuType::X86_64 => "x86_64"@,
            MachOCpuType::Unknown => "Unknown"@,
        }
    }

    /// Returns the descriptive name of this CPU family.
    pub fn name(&self) -> (r: String)
        ensures
            r@ == self.spec_name(),
    {
        match self {
            MachOCpuType::VAX => "VAX".to_owned(),
            MachOCpuType::ROMP => "ROMP".to_owned(),
            MachOCpuType::NS32032 => "NS32032".to_owned(),
            MachOCpuType::NS32332 => "NS32332".to_owned(),
            MachOCpuType::MC680x0 => "MC680x0".to_owned(),
            MachOCpuType::X86 => "x86".to_owned(),
            MachOCpuType::MIPS => "MIPS".to_owned(),
            MachOCpuType::NS32352 => "NS32352".to_owned(),
            MachOCpuType::MC98000 => "MC98000".to_owned(),
            MachOCpuType::HPPA => "HP-PA".to_owned(),
            MachOCpuType::ARM => "ARM".to_owned(),
            MachOCpuType::MC88000 => "MC88000".to_owned(),
            MachOCpuType::SPARC => "SPARC".to_owned(),
            MachOCpuType::I860Be => "i860 (Big-endian)".to_owned(),
            MachOCpuType::I860Le => "i860 (Little-endian)".to_owned(),
            MachOCpuType::RS6000 => "RS/6000".to_owned(),
            MachOCpuType::PPC => "PowerPC".to_owned(),
            MachOCpuType::ARM64 => "ARM64".to_owned(),
            MachOCpuType::X86_64 => "x86_64".to_owned(),
            MachOCpuType::Unknown => "Unknown".to_owned(),
        }
    }
}

/// The CPU family a Mach-O CPU-type code names, if it is a known one.
pub open spec fn spec_mach_cputype(code: u32) -> Option<MachOCpuType> {
    match code {
        0x01 => Some(MachOCpuType::VAX),
        0x02 => Some(MachOCpuType::ROMP),
        0x04 => Some(MachOCpuType::NS32032),
        0x05 => Some(MachOCpuType::NS32332),
        0x06 => Some(MachOCpuType::MC680x0),
        0x07 => Some(MachOCpuType::X86),
        0x08 => Some(MachOCpuType::MIPS),
        0x09 => Some(MachOCpuType::NS32352),
        0x0A => Some(MachOCpuType::MC98000),
        0x0B => Some(MachOCpuType::HPPA),
        0x0C => Some(MachOCpuType::ARM),
        0x0D => Some(MachOCpuType::MC88000),
        0x0E => Some(MachOCpuType::SPARC),
        0x0F => Some(MachOCpuType::I860Be),
        0x10 => Some(MachOCpuType::I860Le),
        0x11 => Some(MachOCpuType::RS6000),
        0x12 => Some(MachOCpuType::PPC),
        0x1000007 => Some(MachOCpuType::X86_64),
        0x100000C => Some(MachOCpuType::ARM64),
        _ => None,
    }
}

/// Looks up the CPU family named by a Mach-O CPU-type code.
pub fn mach_cputype(code: u32) -> (r: Option<MachOCpuType>)
    ensures
        r == spec_mach_cputype(code),
{
    match code {
        0x01 => Some(MachOCpuType::VAX),
        0x02 => Some(MachOCpuType::ROMP),
        0x04 => Some(MachOCpuType::NS32032),
        0x05 => Some(MachOCpuType::NS32332),
        0x06 => Some(MachOCpuType::MC680x0),
        0x07 => Some(MachOCpuType::X86),
        0x08 => Some(MachOCpuType::MIPS),
        0x09 => Some(MachOCpuType::NS32352),
        0x0A => Some(MachOCpuType::MC98000),
        0x0B => Some(MachOCpuType::HPPA),
        0x0C => Some(MachOCpuType::ARM),
        0x0D => Some(MachOCpuType::MC88000),
        0x0E => Some(MachOCpuType::SPARC),
        0x0F => Some(MachOCpuType::I860Be),
        0x10 => Some(MachOCpuType::I860Le),
        0x11 => Some(MachOCpuType::RS6000),
        0x12 => Some(MachOCpuType::PPC),
        0x1000007 => Some(MachOCpuType::X86_64),
        0x100000C => Some(MachOCpuType::ARM64),
        _ => None,
    }
}

/// The ARM-family CPU subtypes a Mach-O header can name.
#[derive(Clone, Copy, Debug, PartialEq, Eq, Structural)]
pub enum MachOArmSubType {
    All,
    A500ArchOrNewer,
    A500OrNewer,
    A440OrNewer,
    M4OrNewer,
    V4TOrNewer,
    V6OrNewer,
    V5TEJOrNewer,
    XScaleOrNewer,
    V7OrNewer,
    V7FCortexA9OrNewer,
    V7SSwiftOrNewer,
    V7KKirkwood40OrNewer,
    V8OrNewer,
    V6MOrNewer,
    V7MOrNewer,
    V7EMOrNewer,
    Unknown,
}

impl MachOArmSubType {
    /// The descriptive name of this ARM subtype.
    pub open spec fn spec_name(self) -> Seq<char> {
        match self {
            MachOArmSubType::All => "All ARM processors"@,
            MachOArmSubType::A500ArchOrNewer => "ARM-A500 ARCH or newer"@,
            MachOArmSubType::A500OrNewer => "ARM-A500 or newer"@,
            MachOArmSubType::A440OrNewer => "ARM-A440 or newer"@,
            MachOArmSubType::M4OrNewer => "ARM-M4 or newer"@,
            MachOArmSubType::V4TOrNewer => "ARM-V4T or newer"@,
            MachOArmSubType::V6OrNewer => "ARM-V6 or newer"@,
            MachOArmSubType::V5TEJOrNewer => "ARM-V5TEJ or newer"@,
            MachOArmSubType::XScaleOrNewer => "ARM-XSCALE or newer"@,
            MachOArmSubType::V7OrNewer => "ARM-V7 or newer"@,
            MachOArmSubType::V7FCortexA9OrNewer => "ARM-V7F (Cortex A9) or newer"@,
            MachOArmSubType::V7SSwiftOrNewer => "ARM-V7S (Swift) or newer"@,
            MachOArmSubType::V7KKirkwood40OrNewer => "ARM-V7K (Kirkwood40) or newer"@,
            MachOArmSubType::V8OrNewer => "ARM-V8 or newer"@,
            MachOArmSubType::V6MOrNewer => "ARM-V6M or newer"@,
            MachOArmSubType::V7MOrNewer => "ARM-V7M or newer"@,
            MachOArmSubType::V7EMOrNewer => "ARM-V7EM or newer"@,
            MachOArmSubType::Unknown => "Unknown"@,
        }
    }

    /// Returns the descriptive name of this ARM subtype.
    pub fn name(&self) -> (r: String)
        ensures
            r@ == self.spec_name(),
    {
        match self {
            MachOArmSubType::All => "All ARM processors".to_owned(),
            MachOArmSubType::A500ArchOrNewer => "ARM-A500 ARCH or newer".to_owned(),
            MachOArmSubType::A500OrNewer => "ARM-A500 or newer".to_owned(),
            MachOArmSubType::A440OrNewer => "ARM-A440 or newer".to_owned(),
            MachOArmSubType::M4OrNewer => "ARM-M4 or newer".to_owned(),
            MachOArmSubType::V4TOrNewer => "ARM-V4T or newer".to_owned(),
            MachOArmSubType::V6OrNewer => "ARM-V6 or newer".to_owned(),
            MachOArmSubType::V5TEJOrNewer => "ARM-V5TEJ or newer".to_owned(),
            MachOArmSubType::XScaleOrNewer => "ARM-XSCALE or newer".to_owned(),
            MachOArmSubType::V7OrNewer => "ARM-V7 or newer".to_owned(),
            MachOArmSubType::V7FCortexA9OrNewer => "ARM-V7F (Cortex A9) or newer".to_owned(),
            MachOArmSubType::V7SSwiftOrNewer => "ARM-V7S (Swift) or newer".to_owned(),
            MachOArmSubType::V7KKirkwood40OrNewer => "ARM-V7K (Kirkwood40) or newer".to_owned(),
            MachOArmSubType::V8OrNewer => "ARM-V8 or newer".to_owned(),
            MachOArmSubType::V6MOrNewer => "ARM-V6M or newer".to_owned(),
            MachOArmSubType::V7MOrNewer => "ARM-V7M or newer".to_owned(),
            MachOArmSubType::V7EMOrNewer => "ARM-V7EM or newer".to_owned(),
            MachOArmSubType::Unknown => "Unknown".to_owned(),
        }
    }
}

/// The ARM subtype a Mach-O CPU-subtype code names, if it is a known one.
pub open spec fn spec_mach_arm_subtype(code: u32) -> Option<MachOArmSubType> {
    match code {
        0x00 => Some(MachOArmSubType::All),
        0x01 => Some(MachOArmSubType::A500ArchOrNewer),
        0x02 => Some(MachOArmSubType::A500OrNewer),
        0x03 => Some(MachOArmSubType::A440OrNewer),
        0x04 => Some(MachOArmSubType::M4OrNewer),
        0x05 => Some(MachOArmSubType::V4TOrNewer),
        0x06 => Some(MachOArmSubType::V6OrNewer),
        0x07 => Some(MachOArmSubType::V5TEJOrNewer),
        0x08 => Some(MachOArmSubType::XScaleOrNewer),
        0x09 => Some(MachOArmSubType::V7OrNewer),
        0x0A => Some(MachOArmSubType::V7FCortexA9OrNewer),
        0x0B => Some(MachOArmSubType::V7SSwiftOrNewer),
        0x0C => Some(MachOArmSubType::V7KKirkwood40OrNewer),
        0x0D => Some(MachOArmSubType::V8OrNewer),
        0x0E => Some(MachOArmSubType::V6MOrNewer),
        0x0F => Some(MachOArmSubType::V7MOrNewer),
        0x10 => Some(MachOArmSubType::V7EMOrNewer),
        _ => None,
    }
}

/// Looks up the ARM subtype named by a Mach-O CPU-subtype code.
pub fn mach_arm_subtype(code: u32) -> (r: Option<MachOArmSubType>)
    ensures
        r == spec_mach_arm_subtype(code),
{
    match code {
        0x00 => Some(MachOArmSubType::All),
        0x01 => Some(MachOArmSubType::A500ArchOrNewer),
        0x02 => Some(MachOArmSubType::A500OrNewer),
        0x03 => Some(MachOArmSubType::A440OrNewer),
        0x04 => Some(MachOArmSubType::M4OrNewer),
        0x05 => Some(MachOArmSubType::V4TOrNewer),
        0x06 => Some(MachOArmSubType::V6OrNewer),
        0x07 => Some(MachOArmSubType::V5TEJOrNewer),
        0x08 => Some(MachOArmSubType::XScaleOrNewer),
        0x09 => Some(MachOArmSubType::V7OrNewer),
        0x0A => Some(MachOArmSubType::V7FCortexA9OrNewer),
        0x0B => Some(MachOArmSubType::V7SSwiftOrNewer),
        0x0C => Some(MachOArmSubType::V7KKirkwood40OrNewer),
        0x0D => Some(MachOArmSubType::V8OrNewer),
        0x0E => Some(MachOArmSubType::V6MOrNewer),
        0x0F => Some(MachOArmSubType::V7MOrNewer),
        0x10 => Some(MachOArmSubType::V7EMOrNewer),
        _ => None,
    }
}

/// The x86-family CPU subtypes a Mach-O header can name.
#[derive(Clone, Copy, Debug, PartialEq, Eq, Structural)]
pub enum MachOX86SubType {
    All,
    I486OrNewer,
    I486SXOrNewer,
    PentiumM5OrNewer,
    CeleronOrNewer,
    CeleronMobile,
    Pentium3OrNewer,
    Pentium3MOrNewer,
    Pentium3XeonOrNewer,
    Pentium4OrNewer,
    ItaniumOrNewer,
    Itanium2OrNewer,
    XeonOrNewer,
    XeonMPOrNewer,
    Undefined,
}

impl MachOX86SubType {
    /// The descriptive name of this x86 subtype.
    pub open spec fn spec_name(self) -> Seq<char> {
        match self {
            MachOX86SubType::All => "All x86 processors"@,
            MachOX86SubType::I486OrNewer => "486 or newer"@,
            MachOX86SubType::I486SXOrNewer => "486SX or newer"@,
            MachOX86SubType::PentiumM5OrNewer => "Pentium M5 or newer"@,
            MachOX86SubType::CeleronOrNewer => "Celeron or newer"@,
            MachOX86SubType::CeleronMobile => "Celeron Mobile"@,
            MachOX86SubType::Pentium3OrNewer => "Pentium 3 or newer"@,
            MachOX86SubType::Pentium3MOrNewer => "Pentium 3-M or newer"@,
            MachOX86SubType::Pentium3XeonOrNewer => "Pentium 3-XEON or newer"@,
            MachOX86SubType::Pentium4OrNewer => "Pentium-4 or newer"@,
            MachOX86SubType::ItaniumOrNewer => "Itanium or newer"@,
            MachOX86SubType::Itanium2OrNewer => "Itanium-2 or newer"@,
            MachOX86SubType::XeonOrNewer => "XEON or newer"@,
            MachOX86SubType::XeonMPOrNewer => "XEON-MP or newer"@,
            MachOX86SubType::Undefined => "Undefined"@,
        }
    }

    /// Returns the descriptive name of this x86 subtype.
    pub fn name(&self) -> (r: String)
        ensures
            r@ == self.spec_name(),
    {
        match self {
            MachOX86SubType::All => "All x86 processors".to_owned(),
            MachOX86SubType::I486OrNewer => "486 or newer".to_owned(),
            MachOX86SubType::I486SXOrNewer => "486SX or newer".to_owned(),
            MachOX86SubType::PentiumM5OrNewer => "Pentium M5 or newer".to_owned(),
            MachOX86SubType::CeleronOrNewer => "Celeron or newer".to_owned(),
            MachOX86SubType::CeleronMobile => "Celeron Mobile".to_owned(),
            MachOX86SubType::Pentium3OrNewer => "Pentium 3 or newer".to_owned(),
            MachOX86SubType::Pentium3MOrNewer => "Pentium 3-M or newer".to_owned(),
            MachOX86SubType::Pentium3XeonOrNewer => "Pentium 3-XEON or newer".to_owned(),
            MachOX86SubType::Pentium4OrNewer => "Pentium-4 or newer".to_owned(),
            MachOX86SubType::ItaniumOrNewer => "Itanium or newer".to_owned(),
            MachOX86SubType::Itanium2OrNewer => "Itanium-2 or newer".to_owned(),
            MachOX86SubType::XeonOrNewer => "XEON or newer".to_owned(),
            MachOX86SubType::XeonMPOrNewer => "XEON-MP or newer".to_owned(),
            MachOX86SubType::Undefined => "Undefined".to_owned(),
        }
    }
}

/// The x86 subtype a Mach-O CPU-subtype code names, if it is a known one.
pub open spec fn spec_mach_x86_subtype(code: u32) -> Option<MachOX86SubType> {
    match code {
        0x03 => Some(MachOX86SubType::All),
        0x04 => Some(MachOX86SubType::I486OrNewer),
        0x84 => Some(MachOX86SubType::I486SXOrNewer),
        0x56 => Some(MachOX86SubType::PentiumM5OrNewer),
        0x67 => Some(MachOX86SubType::CeleronOrNewer),
        0x77 => Some(MachOX86SubType::CeleronMobile),
        0x08 => Some(MachOX86SubType::Pentium3OrNewer),
        0x18 => Some(MachOX86SubType::Pentium3MOrNewer),
        0x28 => Some(MachOX86SubType::Pentium3XeonOrNewer),
        0x0A => Some(MachOX86SubType::Pentium4OrNewer),
        0x0B => Some(MachOX86SubType::ItaniumOrNewer),
        0x1B => Some(MachOX86SubType::Itanium2OrNewer),
        0x0C => Some(MachOX86SubType::XeonOrNewer),
        0x1C => Some(MachOX86SubType::XeonMPOrNewer),
        _ => None,
    }
}

/// Looks up the x86 subtype named by a Mach-O CPU-subtype code.
pub fn mach_x86_subtype(code: u32) -> (r: Option<MachOX86SubType>)
    ensures
        r == spec_mach_x86_subtype(code),
{
    match code {
        0x03 => Some(MachOX86SubType::All),
        0x04 => Some(MachOX86SubType::I486OrNewer),
        0x84 => Some(MachOX86SubType::I486SXOrNewer),
        0x56 => Some(MachOX86SubType::PentiumM5OrNewer),
        0x67 => Some(MachOX86SubType::CeleronOrNewer),
        0x77 => Some(MachOX86SubType::CeleronMobile),
        0x08 => Some(MachOX86SubType::Pentium3OrNewer),
        0x18 => Some(MachOX86SubType::Pentium3MOrNewer),
        0x28 => Some(MachOX86SubType::Pentium3XeonOrNewer),
        0x0A => Some(MachOX86SubType::Pentium4OrNewer),
        0x0B => Some(MachOX86SubType::ItaniumOrNewer),
        0x1B => Some(MachOX86SubType::Itanium2OrNewer),
        0x0C => Some(MachOX86SubType::XeonOrNewer),
        0x1C => Some(MachOX86SubType::XeonMPOrNewer),
        _ => None,
    }
}

/// A CPU subtype of either family a Mach-O record can carry.
#[derive(Clone, Copy, Debug, PartialEq, Eq, Structural)]
pub enum MachOCpuSubType {
    Arm(MachOArmSubType),
    X86(MachOX86SubType),
}

impl MachOCpuSubType {
    /// The descriptive name of this subtype, whichever family it is of.
    pub open spec fn spec_name(self) -> Seq<char> {
        match self {
            MachOCpuSubType::Arm(arm) => arm.spec_name(),
            MachOCpuSubType::X86(x86) => x86.spec_name(),
        }
    }

    /// Returns the descriptive name of this subtype.
    pub fn name(&self) -> (r: String)
        ensures
            r@ == self.spec_name(),
    {
        match self {
            MachOCpuSubType::Arm(arm) => arm.name(),
            MachOCpuSubType::X86(x86) => x86.name(),
        }
    }
}

/// The operating systems a Mach-O build-version platform code can name.
#[derive(Clone, Copy, Debug, PartialEq, Eq, Structural)]
pub enum MachOOs {
    MacOS,
    IOS,
    AppleTVBox,
    AppleWatch,
    BridgeOS,
    MacCatalyst,
    IOSSimulator,
    AppleTVSimulator,
    AppleWatchSimulator,
    DriverKit,
    AppleVisionPro,
    AppleVisionProSimulator,
    Undefined,
}

impl MachOOs {
    /// The descriptive name of this platform.
    pub open spec fn spec_name(self) -> Seq<char> {
        match self {
            MachOOs::MacOS => "MacOS"@,
            MachOOs::IOS => "IOS"@,
            MachOOs::AppleTVBox => "Apple TV Box"@,
            MachOOs::AppleWatch => "Apple Watch"@,
            MachOOs::BridgeOS => "Bridge OS"@,
            MachOOs::MacCatalyst => "Mac Catalyst"@,
            MachOOs::IOSSimulator => "IOS simulator"@,
            MachOOs::AppleTVSimulator => "Apple TV simulator"@,
            MachOOs::AppleWatchSimulator => "Apple watch simulator"@,
            MachOOs::DriverKit => "Driver KIT"@,
            MachOOs::AppleVisionPro => "Apple Vision Pro"@,
            MachOOs::AppleVisionProSimulator => "Apple Vision Pro simulator"@,
            MachOOs::Undefined => "Undefined"@,
        }
    }

    /// Returns the descriptive name of this platform.
    pub fn name(&self) -> (r: String)
        ensures
            r@ == self.spec_name(),
    {
        match self {
            MachOOs::MacOS => "MacOS".to_owned(),
            MachOOs::IOS => "IOS".to_owned(),
            MachOOs::AppleTVBox => "Apple TV Box".to_owned(),
            MachOOs::AppleWatch => "Apple Watch".to_owned(),
            MachOOs::BridgeOS => "Bridge OS".to_owned(),
            MachOOs::MacCatalyst => "Mac Catalyst".to_owned(),
            MachOOs::IOSSimulator => "IOS simulator".to_owned(),
            MachOOs::AppleTVSimulator => "Apple TV simulator".to_owned(),
            MachOOs::AppleWatchSimulator => "Apple watch simulator".to_owned(),
            MachOOs::DriverKit => "Driver KIT".to_owned(),
            MachOOs::AppleVisionPro => "Apple Vision Pro".to_owned(),
            MachOOs::AppleVisionProSimulator => "Apple Vision Pro simulator".to_owned(),
            MachOOs::Undefined => "Undefined".to_owned(),
        }
    }
}

/// The platform a Mach-O build-version code names, if it is a known one.
pub open spec fn spec_mach_platform(code: u32) -> Option<MachOOs> {
    match code {
        0x01 => Some(MachOOs::MacOS),
        0x02 => Some(MachOOs::IOS),
        0x03 => Some(MachOOs::AppleTVBox),
        0x04 => Some(MachOOs::AppleWatch),
        0x05 => Some(MachOOs::BridgeOS),
        0x06 => Some(MachOOs::MacCatalyst),
        0x07 => Some(MachOOs::IOSSimulator),
        0x08 => Some(MachOOs::AppleTVSimulator),
        0x09 => Some(MachOOs::AppleWatchSimulator),
        0x0A => Some(MachOOs::DriverKit),
        0x0B => Some(MachOOs::AppleVisionPro),
        0x0C => Some(MachOOs::AppleVisionProSimulator),
        _ => None,
    }
}

/// Looks up the platform named by a Mach-O build-version code.
pub fn mach_platform(code: u32) -> (r: Option<MachOOs>)
    ensures
        r == spec_mach_platform(code),
{
    match code {
        0x01 => Some(MachOOs::MacOS),
        0x02 => Some(MachOOs::IOS),
        0x03 => Some(MachOOs::AppleTVBox),
        0x04 => Some(MachOOs::AppleWatch),
        0x05 => Some(MachOOs::BridgeOS),
        0x06 => Some(MachOOs::MacCatalyst),
        0x07 => Some(MachOOs::IOSSimulator),
        0x08 => Some(MachOOs::AppleTVSimulator),
        0x09 => Some(MachOOs::AppleWatchSimulator),
        0x0A => Some(MachOOs::DriverKit),
        0x0B => Some(MachOOs::AppleVisionPro),
        0x0C => Some(MachOOs::AppleVisionProSimulator),
        _ => None,
    }
}

/// The kinds of file a Mach-O file-type code can name.
#[derive(Clone, Copy, Debug, PartialEq, Eq, Structural)]
pub enum MachOFileType {
    RelocatableObjectFile,
    DemandPagedExecutableFile,
    FixedVMSharedLibraryFile,
    CoreFile,
    PreloadedExecutableFile,
    DynamicallyBoundSharedLibraryFile,
    DynamicLinkEditor,
    DynamicallyBoundBundleFile,
    SharedLibraryStub,
    CompanionFileWithDebugSections,
    X86_64Kexts,
    ComposedFile,
    Undefined,
}

impl MachOFileType {
    /// The descriptive name of this file type.
    pub open spec fn spec_name(self) -> Seq<char> {
        match self {
            MachOFileType::RelocatableObjectFile => "Object file"@,
            MachOFileType::DemandPagedExecutableFile => "Executable"@,
            MachOFileType::FixedVMSharedLibraryFile => "Fixed VM shared library file"@,
            MachOFileType::CoreFile => "Core file"@,
            MachOFileType::PreloadedExecutableFile => "Preloaded executable file"@,
            MachOFileType::DynamicallyBoundSharedLibraryFile => "Shared object"@,
            MachOFileType::DynamicLinkEditor => "Dynamic link editor"@,
            MachOFileType::DynamicallyBoundBundleFile => "Dynamically bound bundle file"@,
            MachOFileType::SharedLibraryStub => "Shared library stub for static linking only, no section contents"@,
            MachOFileType::CompanionFileWithDebugSections => "Companion file with only debug sections"@,
            MachOFileType::X86_64Kexts => "x86_64 kext"@,
            MachOFileType::ComposedFile => "File composed of other Mach-Os to be run in the same userspace sharing a single linkedit"@,
            MachOFileType::Undefined => "Undefined"@,
        }
    }

    /// Returns the descriptive name of this file type.
    pub fn name(&self) -> (r: String)
        ensures
            r@ == self.spec_name(),
    {
        match self {
            MachOFileType::RelocatableObjectFile => "Object file".to_owned(),
            MachOFileType::DemandPagedExecutableFile => "Executable".to_owned(),
            MachOFileType::FixedVMSharedLibraryFile => "Fixed VM shared library file".to_owned(),
            MachOFileType::CoreFile => "Core file".to_owned(),
            MachOFileType::PreloadedExecutableFile => "Preloaded executable file".to_owned(),
            MachOFileType::DynamicallyBoundSharedLibraryFile => "Shared object".to_owned(),
            MachOFileType::DynamicLinkEditor => "Dynamic link editor".to_owned(),
            MachOFileType::DynamicallyBoundBundleFile => "Dynamically bound bundle file".to_owned(),
            MachOFileType::SharedLibraryStub => "Shared library stub for static linking only, no section contents".to_owned(),
            MachOFileType::CompanionFileWithDebugSections => "Companion file with only debug sections".to_owned(),
            MachOFileType::X86_64Kexts => "x86_64 kext".to_owned(),
            MachOFileType::ComposedFile => "File composed of other Mach-Os to be run in the same userspace sharing a single linkedit".to_owned(),
            MachOFileType::Undefined => "Undefined".to_owned(),
        }
    }
}

/// The file type a Mach-O file-type code names, if it is a known one.
pub open spec fn spec_mach_filetype(code: u32) -> Option<MachOFileType> {
    match code {
        0x01 => Some(MachOFileType::RelocatableObjectFile),
        0x02 => Some(MachOFileType::DemandPagedExecutableFile),
        0x03 => Some(MachOFileType::FixedVMSharedLibraryFile),
        0x04 => Some(MachOFileType::CoreFile),
        0x05 => Some(MachOFileType::PreloadedExecutableFile),
        0x06 => Some(MachOFileType::DynamicallyBoundSharedLibraryFile),
        0x07 => Some(MachOFileType::DynamicLinkEditor),
        0x08 => Some(MachOFileType::DynamicallyBoundBundleFile),
        0x09 => Some(MachOFileType::SharedLibraryStub),
        0x0A => Some(MachOFileType::CompanionFileWithDebugSections),
        0x0B => Some(MachOFileType::X86_64Kexts),
        0x0C => Some(MachOFileType::ComposedFile),
        _ => None,
    }
}

/// Looks up the file type named by a Mach-O file-type code.
pub fn mach_filetype(code: u32) -> (r: Option<MachOFileType>)
    ensures
        r == spec_mach_filetype(code),
{
    match code {
        0x01 => Some(MachOFileType::RelocatableObjectFile),
        0x02 => Some(MachOFileType::DemandPagedExecutableFile),
        0x03 => Some(MachOFileType::FixedVMSharedLibraryFile),
        0x04 => Some(MachOFileType::CoreFile),
        0x05 => Some(MachOFileType::PreloadedExecutableFile),
        0x06 => Some(MachOFileType::DynamicallyBoundSharedLibraryFile),
        0x07 => Some(MachOFileType::DynamicLinkEditor),
        0x08 => Some(MachOFileType::DynamicallyBoundBundleFile),
        0x09 => Some(MachOFileType::SharedLibraryStub),
        0x0A => Some(MachOFileType::CompanionFileWithDebugSections),
        0x0B => Some(MachOFileType::X86_64Kexts),
        0x0C => Some(MachOFileType::ComposedFile),
        _ => None,
    }
}

/// The architectures a PE or COFF machine code can name.
#[derive(Clone, Copy, Debug, PartialEq, Eq, Structural)]
pub enum PeArch {
    Unknown,
    AlphaAXP32,
    AlphaAXP64,
    MatsushitaAM33,
    X64,
    ARM,
    ARM64,
    ARMNT,
    AXP64,
    EBC,
    I386,
    IA64,
    LoongArch32,
    LoongArch64,
    MitsubishiM32R,
    MIPS16,
    MIPSFPU,
    MIPSFPU16,
    PowerPC,
    PowerPCFP,
    MIPS,
    RISCV32,
    RISCV64,
    RISCV128,
    HitachiSH3,
    HitachiSH3DSP,
    HitachiSH4,
    HitachiSH5,
    Thumb,
    MIPSWCE,
}

impl PeArch {
    /// The descriptive name of this architecture.
    pub open spec fn spec_name(self) -> Seq<char> {
        match self {
            PeArch::Unknown => "Unknown"@,
            PeArch::AlphaAXP32 => "Alpha AXP (32-Bit)"@,
            PeArch::AlphaAXP64 => "Alpha 64 (64-Bit)"@,
            PeArch::AXP64 => "Alpha 64 (64-Bit)"@,
            PeArch::MatsushitaAM33 => "Matsushita AM33"@,
            PeArch::X64 => "x64"@,
            PeArch::ARM => "Arm"@,
            PeArch::ARM64 => "Arm (64-Bit)"@,
            PeArch::ARMNT => "ARM Thumb-2"@,
            PeArch::EBC => "EFI bytecode"@,
            PeArch::I386 => "Intel 386"@,
            PeArch::IA64 => "Intel Itanium"@,
            PeArch::LoongArch32 => "LoongArch (32-Bit)"@,
            PeArch::LoongArch64 => "LoongArch (64-Bit)"@,
            PeArch::MitsubishiM32R => "Mitsubishi M32R"@,
            PeArch::MIPS16 => "MIPS16"@,
            PeArch::MIPSFPU => "MIPS with FPU"@,
            PeArch::MIPSFPU16 => "MIPS16 with FPU"@,
            PeArch::PowerPC => "PowerPC"@,
            PeArch::PowerPCFP => "PowerPC with floating point support"@,
            PeArch::MIPS => "MIPS"@,
            PeArch::RISCV32 => "RISC-V (32-Bit)"@,
            PeArch::RISCV64 => "RISC-V (64-Bit)"@,
            PeArch::RISCV128 => "RISC-V 128-Bit"@,
            PeArch::HitachiSH3 => "Hitachi SH3"@,
            PeArch::HitachiSH3DSP => "Hitachi SH3 DSP"@,
            PeArch::HitachiSH4 => "Hitachi SH4"@,
            PeArch::HitachiSH5 => "Hitachi SH5"@,
            PeArch::Thumb => "Thumb"@,
            PeArch::MIPSWCE => "MIPS (Little-endian) WCE v2"@,
        }
    }

    /// Returns the descriptive name of this architecture.
    pub fn name(&self) -> (r: String)
        ensures
            r@ == self.spec_name(),
    {
        match self {
            PeArch::Unknown => "Unknown".to_owned(),
            PeArch::AlphaAXP32 => "Alpha AXP (32-Bit)".to_owned(),
            PeArch::AlphaAXP64 => "Alpha 64 (64-Bit)".to_owned(),
            PeArch::AXP64 => "Alpha 64 (64-Bit)".to_owned(),
            PeArch::MatsushitaAM33 => "Matsushita AM33".to_owned(),
            PeArch::X64 => "x64".to_owned(),
            PeArch::ARM => "Arm".to_owned(),
            PeArch::ARM64 => "Arm (64-Bit)".to_owned(),
            PeArch::ARMNT => "ARM Thumb-2".to_owned(),
            PeArch::EBC => "EFI bytecode".to_owned(),
            PeArch::I386 => "Intel 386".to_owned(),
            PeArch::IA64 => "Intel Itanium".to_owned(),
            PeArch::LoongArch32 => "LoongArch (32-Bit)".to_owned(),
            PeArch::LoongArch64 => "LoongArch (64-Bit)".to_owned(),
            PeArch::MitsubishiM32R => "Mitsubishi M32R".to_owned(),
            PeArch::MIPS16 => "MIPS16".to_owned(),
            PeArch::MIPSFPU => "MIPS with FPU".to_owned(),
            PeArch::MIPSFPU16 => "MIPS16 with FPU".to_owned(),
            PeArch::PowerPC => "PowerPC".to_owned(),
            PeArch::PowerPCFP => "PowerPC with floating point support".to_owned(),
            PeArch::MIPS => "MIPS".to_owned(),
            PeArch::RISCV32 => "RISC-V (32-Bit)".to_owned(),
            PeArch::RISCV64 => "RISC-V (64-Bit)".to_owned(),
            PeArch::RISCV128 => "RISC-V 128-Bit".to_owned(),
            PeArch::HitachiSH3 => "Hitachi SH3".to_owned(),
            PeArch::HitachiSH3DSP => "Hitachi SH3 DSP".to_owned(),
            PeArch::HitachiSH4 => "Hitachi SH4".to_owned(),
            PeArch::HitachiSH5 => "Hitachi SH5".to_owned(),
            PeArch::Thumb => "Thumb".to_owned(),
            PeArch::MIPSWCE => "MIPS (Little-endian) WCE v2".to_owned(),
        }
    }
}

/// The architecture a PE/COFF machine code names, if it is a known one.
pub open spec fn spec_pe_arch(code: u16) -> Option<PeArch> {
    match code {
        0x0000 => Some(PeArch::Unknown),
        0x0184 => Some(PeArch::AlphaAXP32),
        0x0284 => Some(PeArch::AlphaAXP64),
        0x01D3 => Some(PeArch::MatsushitaAM33),
        0x8664 => Some(PeArch::X64),
        0x01C0 => Some(PeArch::ARM),
        0xAA64 => Some(PeArch::ARM64),
        0x01C4 => Some(PeArch::ARMNT),
        0x0EBC => Some(PeArch::EBC),
        0x014C => Some(PeArch::I386),
        0x0200 => Some(PeArch::IA64),
        0x6232 => Some(PeArch::LoongArch32),
        0x6264 => Some(PeArch::LoongArch64),
        0x9041 => Some(PeArch::MitsubishiM32R),
        0x0266 => Some(PeArch::MIPS16),
        0x0366 => Some(PeArch::MIPSFPU),
        0x0466 => Some(PeArch::MIPSFPU16),
        0x01F0 => Some(PeArch::PowerPC),
        0x01F1 => Some(PeArch::PowerPCFP),
        0x0166 => Some(PeArch::MIPS),
        0x5032 => Some(PeArch::RISCV32),
        0x5064 => Some(PeArch::RISCV64),
        0x5128 => Some(PeArch::RISCV128),
        0x01A2 => Some(PeArch::HitachiSH3),
        0x01A3 => Some(PeArch::HitachiSH3DSP),
        0x01A6 => Some(PeArch::HitachiSH4),
        0x01A8 => Some(PeArch::HitachiSH5),
        0x01C2 => Some(PeArch::Thumb),
        0x0169 => Some(PeArch::MIPSWCE),
        _ => None,
    }
}

/// Looks up the architecture named by a PE/COFF machine code.
pub fn pe_arch(code: u16) -> (r: Option<PeArch>)
    ensures
        r == spec_pe_arch(code),
{
    match code {
        0x0000 => Some(PeArch::Unknown),
        0x0184 => Some(PeArch::AlphaAXP32),
        0x0284 => Some(PeArch::AlphaAXP64),
        0x01D3 => Some(PeArch::MatsushitaAM33),
        0x8664 => Some(PeArch::X64),
        0x01C0 => Some(PeArch::ARM),
        0xAA64 => Some(PeArch::ARM64),
        0x01C4 => Some(PeArch::ARMNT),
        0x0EBC => Some(PeArch::EBC),
        0x014C => Some(PeArch::I386),
        0x0200 => Some(PeArch::IA64),
        0x6232 => Some(PeArch::LoongArch32),
        0x6264 => Some(PeArch::LoongArch64),
        0x9041 => Some(PeArch::MitsubishiM32R),
        0x0266 => Some(PeArch::MIPS16),
        0x0366 => Some(PeArch::MIPSFPU),
        0x0466 => Some(PeArch::MIPSFPU16),
        0x01F0 => Some(PeArch::PowerPC),
        0x01F1 => Some(PeArch::PowerPCFP),
        0x0166 => Some(PeArch::MIPS),
        0x5032 => Some(PeArch::RISCV32),
        0x5064 => Some(PeArch::RISCV64),
        0x5128 => Some(PeArch::RISCV128),
        0x01A2 => Some(PeArch::HitachiSH3),
        0x01A3 => Some(PeArch::HitachiSH3DSP),
        0x01A6 => Some(PeArch::HitachiSH4),
        0x01A8 => Some(PeArch::HitachiSH5),
        0x01C2 => Some(PeArch::Thumb),
        0x0169 => Some(PeArch::MIPSWCE),
        _ => None,
    }
}

/// The subsystems a PE optional header can name.
#[derive(Clone, Copy, Debug, PartialEq, Eq, Structural)]
pub enum PeSubsystem {
    Unknown,
    Native,
    WindowsGUI,
    WindowsCUI,
    OS2CUI,
    PosixCUI,
    NativeWindows,
    WindowsCEGUI,
    EFIApplication,
    EFIBootServiceDriver,
    EFIRuntimeDriver,
    EFIRom,
    Xbox,
    WindowsBootApplication,
}

impl PeSubsystem {
    /// The descriptive name of this subsystem.
    pub open spec fn spec_name(self) -> Seq<char> {
        match self {
            PeSubsystem::Unknown => "Undefined"@,
            PeSubsystem::Native => "Device drivers and native windows processes"@,
            PeSubsystem::WindowsGUI => "GUI application"@,
            PeSubsystem::WindowsCUI => "Windows CUI application"@,
            PeSubsystem::OS2CUI => "OS/2 CUI application"@,
            PeSubsystem::PosixCUI => "Posix CUI application"@,
            PeSubsystem::NativeWindows => "Native Win9x driver"@,
            PeSubsystem::WindowsCEGUI => "Windows CE application"@,
            PeSubsystem::EFIApplication => "EFI application"@,
            PeSubsystem::EFIBootServiceDriver => "EFI driver with boot services"@,
            PeSubsystem::EFIRuntimeDriver => "EFI driver with runtime services"@,
            PeSubsystem::EFIRom => "EFI ROM image"@,
            PeSubsystem::Xbox => "XBOX"@,
            PeSubsystem::WindowsBootApplication => "Windows boot application."@,
        }
    }

    /// Returns the descriptive name of this subsystem.
    pub fn name(&self) -> (r: String)
        ensures
            r@ == self.spec_name(),
    {
        match self {
            PeSubsystem::Unknown => "Undefined".to_owned(),
            PeSubsystem::Native => "Device drivers and native windows processes".to_owned(),
            PeSubsystem::WindowsGUI => "GUI application".to_owned(),
            PeSubsystem::WindowsCUI => "Windows CUI application".to_owned(),
            PeSubsystem::OS2CUI => "OS/2 CUI application".to_owned(),
            PeSubsystem::PosixCUI => "Posix CUI application".to_owned(),
            PeSubsystem::NativeWindows => "Native Win9x driver".to_owned(),
            PeSubsystem::WindowsCEGUI => "Windows CE application".to_owned(),
            PeSubsystem::EFIApplication => "EFI application".to_owned(),
            PeSubsystem::EFIBootServiceDriver => "EFI driver with boot services".to_owned(),
            PeSubsystem::EFIRuntimeDriver => "EFI driver with runtime services".to_owned(),
            PeSubsystem::EFIRom => "EFI ROM image".to_owned(),
            PeSubsystem::Xbox => "XBOX".to_owned(),
            PeSubsystem::WindowsBootApplication => "Windows boot application.".to_owned(),
        }
    }
}

/// The subsystem a PE subsystem code names, if it is a known one.
pub open spec fn spec_pe_subsystem(code: u16) -> Option<PeSubsystem> {
    match code {
        0x0000 => Some(PeSubsystem::Unknown),
        0x0001 => Some(PeSubsystem::Native),
        0x0002 => Some(PeSubsystem::WindowsGUI),
        0x0003 => Some(PeSubsystem::WindowsCUI),
        0x0005 => Some(PeSubsystem::OS2CUI),
        0x0007 => Some(PeSubsystem::PosixCUI),
        0x0008 => Some(PeSubsystem::NativeWindows),
        0x0009 => Some(PeSubsystem::WindowsCEGUI),
        0x000A => Some(PeSubsystem::EFIApplication),
        0x000B => Some(PeSubsystem::EFIBootServiceDriver),
        0x000C => Some(PeSubsystem::EFIRuntimeDriver),
        0x000D => Some(PeSubsystem::EFIRom),
        0x000E => Some(PeSubsystem::Xbox),
        0x0010 => Some(PeSubsystem::WindowsBootApplication),
        _ => None,
    }
}

/// Looks up the subsystem named by a PE subsystem code.
pub fn pe_subsystem(code: u16) -> (r: Option<PeSubsystem>)
    ensures
        r == spec_pe_subsystem(code),
{
    match code {
        0x0000 => Some(PeSubsystem::Unknown),
        0x0001 => Some(PeSubsystem::Native),
        0x0002 => Some(PeSubsystem::WindowsGUI),
        0x0003 => Some(PeSubsystem::WindowsCUI),
        0x0005 => Some(PeSubsystem::OS2CUI),
        0x0007 => Some(PeSubsystem::PosixCUI),
        0x0008 => Some(PeSubsystem::NativeWindows),
        0x0009 => Some(PeSubsystem::WindowsCEGUI),
        0x000A => Some(PeSubsystem::EFIApplication),
        0x000B => Some(PeSubsystem::EFIBootServiceDriver),
        0x000C => Some(PeSubsystem::EFIRuntimeDriver),
        0x000D => Some(PeSubsystem::EFIRom),
        0x000E => Some(PeSubsystem::Xbox),
        0x0010 => Some(PeSubsystem::WindowsBootApplication),
        _ => None,
    }
}

/// The operating systems a PE subsystem can resolve to.
#[derive(Clone, Copy, Debug, PartialEq, Eq, Structural)]
pub enum PeOS {
    Xbox,
    Windows,
    UEFI,
    Undefined,
}

impl PeOS {
    /// The descriptive name of this operating system.
    pub open spec fn spec_name(self) -> Seq<char> {
        match self {
            PeOS::Xbox => "Xbox"@,
            PeOS::Windows => "Windows"@,
            PeOS::UEFI => "UEFI"@,
            PeOS::Undefined => "Undefined"@,
        }
    }

    /// Returns the descriptive name of this operating system.
    pub fn name(&self) -> (r: String)
        ensures
            r@ == self.spec_name(),
    {
        match self {
            PeOS::Xbox => "Xbox".to_owned(),
            PeOS::Windows => "Windows".to_owned(),
            PeOS::UEFI => "UEFI".to_owned(),
            PeOS::Undefined => "Undefined".to_owned(),
        }
    }
}

} // verus!
