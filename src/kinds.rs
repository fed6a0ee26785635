//! Closed enumerations of the launch configuration.
use vstd::prelude::*;
use vstd::string::StrSliceExecFns;

verus! {

/// Client protocol version.
#[derive(Debug, Clone, Copy, PartialEq, Eq, Structural)]
pub enum MhfVersion {
    ZZ,
    F5,
}

impl Default for MhfVersion {
    fn default() -> (r: MhfVersion)
        ensures
            r == MhfVersion::ZZ,
    {
        MhfVersion::ZZ
    }
}

impl MhfVersion {
    /// Wire code of the version.
    pub open spec fn spec_code(self) -> u8 {
        match self {
            MhfVersion::ZZ => 1,
            MhfVersion::F5 => 2,
        }
    }

    pub fn code(&self) -> (r: u8)
        ensures
            r == self.spec_code(),
    {
        match self {
            MhfVersion::ZZ => 1,
            MhfVersion::F5 => 2,
        }
    }

    /// The version with the given wire code, if there is one.
    pub fn from_code(c: u8) -> (r: Option<MhfVersion>)
        ensures
            r matches Some(v) ==> v.spec_code() == c,
            r is None ==> forall|v: MhfVersion| v.spec_code() != c,
    {
        match c {
            1 => Some(MhfVersion::ZZ),
            2 => Some(MhfVersion::F5),
            _ => None,
        }
    }
}

/// Command-line switches of the game client.
#[derive(Debug, Clone, Copy, PartialEq, Eq, Structural)]
pub enum CliFlags {
    Selfup,
    Restat,
    Autolc,
    Hanres,
    DmmBoot,
    DmmSelfup,
    DmmAutolc,
    DmmReboot,
    Npge,
    NpMhfoTest,
}

impl CliFlags {
    /// Wire code of the switch.
    pub open spec fn spec_code(self) -> u8 {
        match self {
            CliFlags::Selfup => 1,
            CliFlags::Restat => 2,
            CliFlags::Autolc => 3,
            CliFlags::Hanres => 4,
            CliFlags::DmmBoot => 5,
            CliFlags::DmmSelfup => 6,
            CliFlags::DmmAutolc => 7,
            CliFlags::DmmReboot => 8,
            CliFlags::Npge => 9,
            CliFlags::NpMhfoTest => 10,
        }
    }

    pub fn code(&self) -> (r: u8)
        ensures
            r == self.spec_code(),
    {
        match self {
            CliFlags::Selfup => 1,
            CliFlags::Restat => 2,
            CliFlags::Autolc => 3,
            CliFlags::Hanres => 4,
            CliFlags::DmmBoot => 5,
            CliFlags::DmmSelfup => 6,
            CliFlags::DmmAutolc => 7,
            CliFlags::DmmReboot => 8,
            CliFlags::Npge => 9,
            CliFlags::NpMhfoTest => 10,
        }
    }

    /// The switch with the given wire code, if there is one.
    pub fn from_code(c: u8) -> (r: Option<CliFlags>)
        ensures
            r matches Some(f) ==> f.spec_code() == c,
            r is None ==> forall|f: CliFlags| f.spec_code() != c,
    {
        match c {
            1 => Some(CliFlags::Selfup),
            2 => Some(CliFlags::Restat),
            3 => Some(CliFlags::Autolc),
            4 => Some(CliFlags::Hanres),
            5 => Some(CliFlags::DmmBoot),
            6 => Some(CliFlags::DmmSelfup),
            7 => Some(CliFlags::DmmAutolc),
            8 => Some(CliFlags::DmmReboot),
            9 => Some(CliFlags::Npge),
            10 => Some(CliFlags::NpMhfoTest),
            _ => None,
        }
    }
}

/// Stall kinds of the promotional festival event.
#[derive(Debug, Clone, Copy, PartialEq, Eq, Structural)]
pub enum MezFesStall {
    TokotokoPartnya,
    Pachinko,
    VolpakkunTogether,
    GoocooScoop,
    Nyanrendo,
    HoneyPanic,
    DokkanBattleCats,
    PointStall,
    StallMap,
}

impl MezFesStall {
    /// Wire code of the stall.
    pub open spec fn spec_code(self) -> u32 {
        match self {
            MezFesStall::TokotokoPartnya => 2,
            MezFesStall::Pachinko => 3,
            MezFesStall::VolpakkunTogether => 4,
            MezFesStall::GoocooScoop => 5,
            MezFesStall::Nyanrendo => 6,
            MezFesStall::HoneyPanic => 7,
            MezFesStall::DokkanBattleCats => 8,
            MezFesStall::PointStall => 9,
            MezFesStall::StallMap => 10,
        }
    }

    pub fn code(&self) -> (r: u32)
        ensures
            r == self.spec_code(),
    {
        match self {
            MezFesStall::TokotokoPartnya => 2,
            MezFesStall::Pachinko => 3,
            MezFesStall::VolpakkunTogether => 4,
            MezFesStall::GoocooScoop => 5,
            MezFesStall::Nyanrendo => 6,
            MezFesStall::HoneyPanic => 7,
            MezFesStall::DokkanBattleCats => 8,
            MezFesStall::PointStall => 9,
            MezFesStall::StallMap => 10,
        }
    }

    /// The stall with the given wire code, if there is one.
    pub fn from_code(c: u32) -> (r: Option<MezFesStall>)
        ensures
            r matches Some(s) ==> s.spec_code() == c,
            r is None ==> forall|s: MezFesStall| s.spec_code() != c,
    {
        match c {
            2 => Some(MezFesStall::TokotokoPartnya),
            3 => Some(MezFesStall::Pachinko),
            4 => Some(MezFesStall::VolpakkunTogether),
            5 => Some(MezFesStall::GoocooScoop),
            6 => Some(MezFesStall::Nyanrendo),
            7 => Some(MezFesStall::HoneyPanic),
            8 => Some(MezFesStall::DokkanBattleCats),
            9 => Some(MezFesStall::PointStall),
            10 => Some(MezFesStall::StallMap),
            _ => None,
        }
    }
}

/// The stall whose server name is `name`, if any: the lookup table of the
/// closed enumeration.
pub open spec fn stall_named(name: Seq<char>) -> Option<MezFesStall> {
    if name == "TokotokoPartnya"@ {
        Some(MezFesStall::TokotokoPartnya)
    } else if name == "Pachinko"@ {
        Some(MezFesStall::Pachinko)
    } else if name == "VolpakkunTogether"@ {
        Some(MezFesStall::VolpakkunTogether)
    } else if name == "GoocooScoop"@ {
        Some(MezFesStall::GoocooScoop)
    } else if name == "Nyanrendo"@ {
        Some(MezFesStall::Nyanrendo)
    } else if name == "HoneyPanic"@ {
        Some(MezFesStall::HoneyPanic)
    } else if name == "DokkanBattleCats"@ {
        Some(MezFesStall::DokkanBattleCats)
    } else if name == "PointStall"@ {
        Some(MezFesStall::PointStall)
    } else if name == "StallMap"@ {
        Some(MezFesStall::StallMap)
    } else {
        None
    }
}

/// Character-wise equality of two strings.
fn same_text(a: &str, b: &str) -> (r: bool)
    ensures
        r == (a@ == b@),
{
    let n = a.unicode_len();
    if n != b.unicode_len() {
        return false;
    }
    let mut i: usize = 0;
    while i < n
        invariant
            n == a@.len(),
            n == b@.len(),
            i <= n,
            forall|j: int| 0 <= j < i ==> a@[j] == b@[j],
        decreases n - i,
    {
        if a.get_char(i) != b.get_char(i) {
            return false;
        }
        i += 1;
    }
    assert(a@ =~= b@);
    true
}

/// Looks a server stall name up in the closed enumeration.
pub fn stall_from_name(name: &str) -> (r: Option<MezFesStall>)
    ensures
        r == stall_named(name@),
{
    if same_text(name, "TokotokoPartnya") {
        Some(MezFesStall::TokotokoPartnya)
    } else if same_text(name, "Pachinko") {
        Some(MezFesStall::Pachinko)
    } else if same_text(name, "VolpakkunTogether") {
        Some(MezFesStall::VolpakkunTogether)
    } else if same_text(name, "GoocooScoop") {
        Some(MezFesStall::GoocooScoop)
    } else if same_text(name, "Nyanrendo") {
        Some(MezFesStall::Nyanrendo)
    } else if same_text(name, "HoneyPanic") {
        Some(MezFesStall::HoneyPanic)
    } else if same_text(name, "DokkanBattleCats") {
        Some(MezFesStall::DokkanBattleCats)
    } else if same_text(name, "PointStall") {
        Some(MezFesStall::PointStall)
    } else if same_text(name, "StallMap") {
        Some(MezFesStall::StallMap)
    } else {
        None
    }
}

} // verus!
