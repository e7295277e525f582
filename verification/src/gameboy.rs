//! Cartridge-level wrapper around the interpreter: holds the ROM image,
//! validates the cartridge header (logo signature, title text), and starts
//! the run loop. Header validation failures are reported before the
//! interpreter ever starts and are distinct from the interpreter's own two
//! fault kinds: a logo mismatch is a warning-level condition that does not
//! prevent running, while a title that is not text is a hard error.

use crate::cpu::{loaded_view, run_post, Cpu, CpuView, Fault};
use vstd::prelude::*;
use vstd::utf8::{decode_utf8, valid_utf8};

verus! {

/// Why a cartridge failed validation: its logo signature did not match the
/// expected 48 bytes, or its title bytes were not valid text.
#[derive(Clone, Copy, Debug, PartialEq, Eq, Structural)]
pub enum CartridgeValidationError {
    InvalidNintendoLogo,
    InvalidGameTitle,
}

/// The byte expected at offset `i` of the 48-byte logo signature.
pub open spec fn logo_byte(i: int) -> u8 {
    if i == 0 {
        0xCE
    } else if i == 1 {
        0xED
    } else if i == 2 {
        0x66
    } else if i == 3 {
        0x66
    } else if i == 4 {
        0xCC
    } else if i == 5 {
        0x0D
    } else if i == 6 {
        0x00
    } else if i == 7 {
        0x0B
    } else if i == 8 {
        0x03
    } else if i == 9 {
        0x73
    } else if i == 10 {
        0x00
    } else if i == 11 {
        0x83
    } else if i == 12 {
        0x00
    } else if i == 13 {
        0x0C
    } else if i == 14 {
        0x00
    } else if i == 15 {
        0x0D
    } else if i == 16 {
        0x00
    } else if i == 17 {
        0x08
    } else if i == 18 {
        0x11
    } else if i == 19 {
        0x1F
    } else if i == 20 {
        0x88
    } else if i == 21 {
        0x89
    } else if i == 22 {
        0x00
    } else if i == 23 {
        0x0E
    } else if i == 24 {
        0xDC
    } else if i == 25 {
        0xCC
    } else if i == 26 {
        0x6E
    } else if i == 27 {
        0xE6
    } else if i == 28 {
        0xDD
    } else if i == 29 {
        0xDD
    } else if i == 30 {
        0xD9
    } else if i == 31 {
        0x99
    } else if i == 32 {
        0xBB
    } else if i == 33 {
        0xBB
    } else if i == 34 {
        0x67
    } else if i == 35 {
        0x63
    } else if i == 36 {
        0x6E
    } else if i == 37 {
        0x0E
    } else if i == 38 {
        0xEC
    } else if i == 39 {
        0xCC
    } else if i == 40 {
        0xDD
    } else if i == 41 {
        0xDC
    } else if i == 42 {
        0x99
    } else if i == 43 {
        0x9F
    } else if i == 44 {
        0xBB
    } else if i == 45 {
        0xB9
    } else if i == 46 {
        0x33
    } else {
        0x3E
    }
}

/// A byte sequence is the expected logo signature: 48 bytes, each one as the
/// table says.
pub open spec fn is_expected_logo(logo: Seq<u8>) -> bool {
    logo.len() == 48 && (forall|i: int| 0 <= i < 48 ==> logo[i] == logo_byte(i))
}

/// The byte expected at offset `i` of the 48-byte logo signature.
fn expected_logo_byte(i: usize) -> (r: u8)
    requires
        i < 48,
    ensures
        r == logo_byte(i as int),
{
    match i {
        0 => 0xCE,
        1 => 0xED,
        2 => 0x66,
        3 => 0x66,
        4 => 0xCC,
        5 => 0x0D,
        6 => 0x00,
        7 => 0x0B,
        8 => 0x03,
        9 => 0x73,
        10 => 0x00,
        11 => 0x83,
        12 => 0x00,
        13 => 0x0C,
        14 => 0x00,
        15 => 0x0D,
        16 => 0x00,
        17 => 0x08,
        18 => 0x11,
        19 => 0x1F,
        20 => 0x88,
        21 => 0x89,
        22 => 0x00,
        23 => 0x0E,
        24 => 0xDC,
        25 => 0xCC,
        26 => 0x6E,
        27 => 0xE6,
        28 => 0xDD,
        29 => 0xDD,
        30 => 0xD9,
        31 => 0x99,
        32 => 0xBB,
        33 => 0xBB,
        34 => 0x67,
        35 => 0x63,
        36 => 0x6E,
        37 => 0x0E,
        38 => 0xEC,
        39 => 0xCC,
        40 => 0xDD,
        41 => 0xDC,
        42 => 0x99,
        43 => 0x9F,
        44 => 0xBB,
        45 => 0xB9,
        46 => 0x33,
        _ => 0x3E,
    }
}

/// Checks the 48-byte logo signature of a cartridge header against the
/// expected value. `Ok` exactly when the slice matches byte for byte.
pub fn validate_nintendo_logo(logo: &[u8]) -> (r: Result<(), CartridgeValidationError>)
    ensures
        r is Ok <==> is_expected_logo(logo@),
        r is Err ==> r == Err::<(), CartridgeValidationError>(
            CartridgeValidationError::InvalidNintendoLogo,
        ),
{
    if logo.len() != 48 {
        return Err(CartridgeValidationError::InvalidNintendoLogo);
    }
    let mut i: usize = 0;
    while i < 48
        invariant
            logo@.len() == 48,
            i <= 48,
            forall|j: int| 0 <= j < i ==> logo@[j] == logo_byte(j),
        decreases 48 - i,
    {
        if logo[i] != expected_logo_byte(i) {
            return Err(CartridgeValidationError::InvalidNintendoLogo);
        }
        i += 1;
    }
    Ok(())
}

/// Relies on std's String::from_utf8: it succeeds exactly on valid UTF-8
/// input and decodes the bytes to their characters (vstd's `valid_utf8` and
/// `decode_utf8` state that encoding).
#[verifier::external_body]
fn string_from_utf8(bytes: Vec<u8>) -> (r: Option<String>)
    ensures
        r is Some <==> valid_utf8(bytes@),
        r matches Some(s) ==> s@ == decode_utf8(bytes@),
{
    match String::from_utf8(bytes) {
        Ok(s) => Some(s),
        Err(_) => None,
    }
}

/// The cartridge and the interpreter that runs it. The ROM image and the
/// decoded game title are open to the caller; the interpreter state is not.
pub struct GameBoy {
    pub rom: Vec<u8>,
    pub game_title: String,
    cartridge_type: u8,
    cpu: Cpu,
}

impl GameBoy {
    /// The interpreter inside is well-formed.
    pub closed spec fn wf(&self) -> bool {
        self.cpu.wf()
    }

    /// The interpreter state, for contracts.
    pub closed spec fn spec_cpu(&self) -> CpuView {
        self.cpu@
    }

    /// The stored ROM image, for contracts.
    pub closed spec fn spec_rom(&self) -> Seq<u8> {
        self.rom@
    }

    /// The decoded game title, for contracts.
    pub closed spec fn spec_game_title(&self) -> Seq<char> {
        self.game_title@
    }

    /// The cartridge-type byte read from the header, for contracts.
    pub closed spec fn spec_cartridge_type(&self) -> u8 {
        self.cartridge_type
    }
}

impl Default for GameBoy {
    /// A machine with no cartridge loaded and the CPU at power-on.
    fn default() -> (r: GameBoy)
        ensures
            r.wf(),
            r.spec_rom().len() == 0,
            r.spec_game_title().len() == 0,
            r.spec_cartridge_type() == 0,
    {
        GameBoy { rom: Vec::new(), game_title: String::new(), cartridge_type: 0x0, cpu: Cpu::new() }
    }
}

impl GameBoy {
    /// A machine with no cartridge loaded and the CPU at power-on.
    pub fn new() -> (r: GameBoy)
        ensures
            r.wf(),
            r.spec_rom().len() == 0,
            r.spec_game_title().len() == 0,
            r.spec_cartridge_type() == 0,
    {
        Self::default()
    }

    /// Takes a cartridge image and validates its header: the title bytes
    /// (0x134..=0x142) must decode as text — a hard error if they do not —
    /// and the logo signature (0x104..=0x133) must match the expected bytes,
    /// a warning-level error reported after the title has been stored. The
    /// image itself is kept either way; the cartridge-type byte (0x147) is
    /// recorded only on full success.
    pub fn load_rom(&mut self, rom: Vec<u8>) -> (r: Result<(), CartridgeValidationError>)
        requires
            old(self).wf(),
            rom@.len() >= 0x148,
        ensures
            final(self).wf(),
            final(self).spec_rom() == rom@,
            final(self).spec_cpu() == old(self).spec_cpu(),
            match r {
                Ok(()) => {
                    &&& valid_utf8(rom@.subrange(0x134, 0x143))
                    &&& final(self).spec_game_title() == decode_utf8(rom@.subrange(0x134, 0x143))
                    &&& is_expected_logo(rom@.subrange(0x104, 0x134))
                    &&& final(self).spec_cartridge_type() == rom@[0x147]
                },
                Err(CartridgeValidationError::InvalidGameTitle) => {
                    &&& !valid_utf8(rom@.subrange(0x134, 0x143))
                    &&& final(self).spec_game_title() == old(self).spec_game_title()
                    &&& final(self).spec_cartridge_type() == old(self).spec_cartridge_type()
                },
                Err(CartridgeValidationError::InvalidNintendoLogo) => {
                    &&& valid_utf8(rom@.subrange(0x134, 0x143))
                    &&& final(self).spec_game_title() == decode_utf8(rom@.subrange(0x134, 0x143))
                    &&& !is_expected_logo(rom@.subrange(0x104, 0x134))
                    &&& final(self).spec_cartridge_type() == old(self).spec_cartridge_type()
                },
            },
    {
        let mut title_bytes: Vec<u8> = Vec::new();
        let mut i: usize = 0x134;
        while i < 0x143
            invariant
                rom@.len() >= 0x148,
                0x134 <= i <= 0x143,
                title_bytes@.len() == i - 0x134,
                forall|j: int| 0 <= j < title_bytes@.len() ==> title_bytes@[j] == rom@[0x134 + j],
            decreases 0x143 - i,
        {
            title_bytes.push(rom[i]);
            i += 1;
        }
        proof {
            assert(title_bytes@ =~= rom@.subrange(0x134, 0x143));
        }
        let title = match string_from_utf8(title_bytes) {
            Some(t) => t,
            None => {
                self.rom = rom;
                return Err(CartridgeValidationError::InvalidGameTitle);
            },
        };
        self.game_title = title;

        let mut logo_bytes: Vec<u8> = Vec::new();
        let mut k: usize = 0x104;
        while k < 0x134
            invariant
                rom@.len() >= 0x148,
                0x104 <= k <= 0x134,
                logo_bytes@.len() == k - 0x104,
                forall|j: int| 0 <= j < logo_bytes@.len() ==> logo_bytes@[j] == rom@[0x104 + j],
            decreases 0x134 - k,
        {
            logo_bytes.push(rom[k]);
            k += 1;
        }
        proof {
            assert(logo_bytes@ =~= rom@.subrange(0x104, 0x134));
        }
        let logo_ok = validate_nintendo_logo(logo_bytes.as_slice());
        let cartridge_type = rom[0x147];
        self.rom = rom;
        match logo_ok {
            Ok(()) => {
                self.cartridge_type = cartridge_type;
                Ok(())
            },
            Err(e) => Err(e),
        }
    }

    /// Starts the interpreter on the loaded ROM image: the CPU executes from
    /// its power-on state until a fault (`Some`) or until the stop budget
    /// runs out (`None`), as `Cpu::run` specifies.
    pub fn run(&mut self, max_steps: u64) -> (r: Option<Fault>)
        requires
            old(self).wf(),
            old(self).spec_rom().len() >= 0x4000,
        ensures
            final(self).wf(),
            final(self).spec_rom() == old(self).spec_rom(),
            run_post(
                loaded_view(old(self).spec_cpu(), old(self).spec_rom()),
                final(self).spec_cpu(),
                r,
                max_steps,
            ),
    {
        self.cpu.run(self.rom.as_slice(), max_steps)
    }

    /// The whole address space serialized in address order, for offline
    /// diagnosis after a fault.
    pub fn dump(&self) -> (r: Vec<u8>)
        requires
            self.wf(),
        ensures
            r@ == self.spec_cpu().mem,
    {
        self.cpu.bus().dump()
    }
}

} // verus!
