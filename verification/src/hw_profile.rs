//! A description of the machine, and how one is put together from what the
//! operating system reports.

use vstd::prelude::*;
use vstd::string::*;

verus! {

/// The number of bytes in one of the gigabytes that `total_memory_gb` counts.
pub const BYTES_PER_GB: u64 = 1_073_741_824;

/// What is known of the machine that the process runs on.
#[derive(Debug)]
pub struct HardwareProfile {
    pub cpu_cores: u32,
    pub total_memory_gb: u64,
    pub cpu_model: String,
    pub cpu_vendor: String,
    pub cpu_frequency_mhz: u64,
}

/// What the operating system reports of one processor.
#[derive(Debug)]
pub struct CpuReading {
    pub brand: String,
    pub vendor_id: String,
    pub frequency_mhz: u64,
}

/// The decimal digit `d`, written out.
pub open spec fn digit_text(d: nat) -> Seq<char> {
    if d == 0 {
        "0"@
    } else if d == 1 {
        "1"@
    } else if d == 2 {
        "2"@
    } else if d == 3 {
        "3"@
    } else if d == 4 {
        "4"@
    } else if d == 5 {
        "5"@
    } else if d == 6 {
        "6"@
    } else if d == 7 {
        "7"@
    } else if d == 8 {
        "8"@
    } else {
        "9"@
    }
}

/// The number `n` written in decimal, without sign or leading zeros.
pub open spec fn decimal_text(n: nat) -> Seq<char>
    decreases n,
{
    if n < 10 {
        digit_text(n)
    } else {
        decimal_text(n / 10) + digit_text(n % 10)
    }
}

/// The decimal digit `d`, written out.
fn digit(d: u64) -> (r: &'static str)
    requires
        d < 10,
    ensures
        r@ == digit_text(d as nat),
{
    if d == 0 {
        "0"
    } else if d == 1 {
        "1"
    } else if d == 2 {
        "2"
    } else if d == 3 {
        "3"
    } else if d == 4 {
        "4"
    } else if d == 5 {
        "5"
    } else if d == 6 {
        "6"
    } else if d == 7 {
        "7"
    } else if d == 8 {
        "8"
    } else {
        "9"
    }
}

/// Writes `n` in decimal.
pub fn decimal(n: u64) -> (r: String)
    ensures
        r@ == decimal_text(n as nat),
{
    let mut text = String::from_str(digit(n % 10));
    let mut rest: u64 = n / 10;
    while rest > 0
        invariant
            decimal_text(n as nat) == if rest > 0 {
                decimal_text(rest as nat) + text@
            } else {
                text@
            },
        decreases rest,
    {
        let ghost before = text@;
        text = String::from_str(digit(rest % 10)).concat(text.as_str());
        proof {
            if rest >= 10 {
                assert((decimal_text((rest / 10) as nat) + digit_text((rest % 10) as nat)) + before
                    =~= decimal_text((rest / 10) as nat) + (digit_text((rest % 10) as nat)
                    + before));
            }
        }
        rest = rest / 10;
    }
    text
}

/// The core count of a profile, from the count of physical cores that was
/// read, if one was: the count cut down to 32 bits, and 0 for none.
pub open spec fn core_count(physical_cores: Option<usize>) -> u32 {
    match physical_cores {
        Some(n) => n as u32,
        None => 0,
    }
}

impl HardwareProfile {
    /// The text that `repr` returns.
    pub open spec fn repr_text(self) -> Seq<char> {
        "HardwareProfile(cpu_cores="@ + decimal_text(self.cpu_cores as nat) + ", cpu_model='"@
            + self.cpu_model@ + "', memory_gb="@ + decimal_text(self.total_memory_gb as nat)
            + ")"@
    }

    /// A one-line description: the core count, the model and the memory.
    pub fn repr(&self) -> (r: String)
        ensures
            r@ == self.repr_text(),
    {
        let cores = decimal(self.cpu_cores as u64);
        let memory = decimal(self.total_memory_gb);
        String::from_str("HardwareProfile(cpu_cores=").concat(cores.as_str()).concat(
            ", cpu_model='",
        ).concat(self.cpu_model.as_str()).concat("', memory_gb=").concat(memory.as_str()).concat(
            ")",
        )
    }

    /// A profile with the given fields.
    pub fn py_new(
        cpu_cores: u32,
        total_memory_gb: u64,
        cpu_model: String,
        cpu_vendor: String,
        cpu_frequency_mhz: u64,
    ) -> (r: Self)
        ensures
            r == (HardwareProfile {
                cpu_cores,
                total_memory_gb,
                cpu_model,
                cpu_vendor,
                cpu_frequency_mhz,
            }),
    {
        HardwareProfile { cpu_cores, total_memory_gb, cpu_model, cpu_vendor, cpu_frequency_mhz }
    }

    /// The profile of a machine from its raw readings: the number of physical
    /// cores if it could be told, the memory in bytes, and the first processor
    /// if there is one. Memory is counted in whole gigabytes, rounded down. A
    /// machine that reports no processor has the model and vendor `"Unknown"`
    /// and the frequency 0.
    pub fn from_readings(
        physical_cores: Option<usize>,
        total_memory_bytes: u64,
        first_cpu: Option<CpuReading>,
    ) -> (r: Self)
        ensures
            r.cpu_cores == core_count(physical_cores),
            r.total_memory_gb == total_memory_bytes / BYTES_PER_GB,
            match first_cpu {
                Some(cpu) => {
                    &&& r.cpu_model == cpu.brand
                    &&& r.cpu_vendor == cpu.vendor_id
                    &&& r.cpu_frequency_mhz == cpu.frequency_mhz
                },
                None => {
                    &&& r.cpu_model@ == "Unknown"@
                    &&& r.cpu_vendor@ == "Unknown"@
                    &&& r.cpu_frequency_mhz == 0
                },
            },
    {
        let cpu_cores: u32 = match physical_cores {
            Some(n) => #[verifier::truncate]
            (n as u32),
            None => 0,
        };
        let total_memory_gb: u64 = total_memory_bytes / BYTES_PER_GB;
        match first_cpu {
            Some(cpu) => HardwareProfile {
                cpu_cores,
                total_memory_gb,
                cpu_model: cpu.brand,
                cpu_vendor: cpu.vendor_id,
                cpu_frequency_mhz: cpu.frequency_mhz,
            },
            None => HardwareProfile {
                cpu_cores,
                total_memory_gb,
                cpu_model: String::from_str("Unknown"),
                cpu_vendor: String::from_str("Unknown"),
                cpu_frequency_mhz: 0,
            },
        }
    }
}

} // verus!
