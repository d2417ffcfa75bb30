//! Constants of the game and of this client.
use vstd::prelude::*;

verus! {

/// MD5 of the default (version 3) survival spawnset, lower case.
pub const V3_SURVIVAL_HASH: &'static str = "569fead87abf4d30fdee4231a6398051";

/// This client's version.
pub const VERSION: &'static str = "0.6.10";

/// Internal version number of the client.
pub const INT_VER: u32 = 2;

/// The full logo.
pub const LOGO_NEW: &'static str = "

████████▄  ████████▄     ▄████████     ███        ▄████████     ███        ▄████████
███   ▀███ ███   ▀███   ███    ███ ▀█████████▄   ███    ███ ▀█████████▄   ███    ███
███    ███ ███    ███   ███    █▀     ▀███▀▀██   ███    ███    ▀███▀▀██   ███    █▀
███    ███ ███    ███   ███            ███   ▀   ███    ███     ███   ▀   ███
███    ███ ███    ███ ▀███████████     ███     ▀███████████     ███     ▀███████████
███    ███ ███    ███          ███     ███       ███    ███     ███              ███
███   ▄███ ███   ▄███    ▄█    ███     ███       ███    ███     ███        ▄█    ███
████████▀  ████████▀   ▄████████▀     ▄████▀     ███    █▀     ▄████▀    ▄████████▀
v2 [ Stable ]                                                                   rust";

/// The narrow logo.
pub const LOGO_MINI: &'static str = "
____________  _____ _____ ___ _____ _____
|  _  \\  _  \\/  ___|_   _/ _ \\_   _/  ___|
| | | | | | |\\ `--.  | |/ /_\\ \\| | \\ `--.
| | | | | | | `--. \\ | ||  _  || |  `--. \\
| |/ /| |/ / /\\__/ / | || | | || | /\\__/ /
|___/ |___/  \\____/  \\_/\\_| |_/\\_/ \\____/
v2                                   rust";

/// An older logo.
pub const LOGO_ALT: &'static str = "
@@@@@@@   @@@@@@@    @@@@@@   @@@@@@@   @@@@@@   @@@@@@@   @@@@@@@
@@@@@@@@  @@@@@@@@  @@@@@@@   @@@@@@@  @@@@@@@@  @@@@@@@  @@@@@@@
@@!  @@@  @@!  @@@  !@@         @@!    @@!  @@@    @@!    !@@
!@!  @!@  !@!  @!@  !@!         !@!    !@!  @!@    !@!    !@!
@!@  !@!  @!@  !@!  !!@@!!      @!!    @!@!@!@!    @!!    !!@@!!
!@!  !!!  !@!  !!!   !!@!!!     !!!    !!!@!!!!    !!!     !!@!!!
!!:  !!!  !!:  !!!       !:!    !!:    !!:  !!!    !!:         !:!
:!:  !:!  :!:  !:!      !:!     :!:    :!:  !:!    :!:        !:!
::::: ::   :::: ::  :::: ::      ::    ::   :::     ::    :::: ::
:: :  :   :: :  :   :: : :       :      :   : :     :     :::: rust";

/// How many times a failed submission is retried.
pub const SUBMIT_RETRY_MAX: u16 = 10;

/// Built-in address of the statistics block on Linux.
pub const LINUX_BLOCK_START: usize = 0x00521C98;

/// Built-in address of the statistics block on Windows.
pub const WINDOWS_BLOCK_START: usize = 0x250DC0;

/// The names of the ways to die, by death type number.
pub open spec fn death_types() -> Seq<Seq<char>> {
    seq![
        "Fallen"@, "Swarmed"@, "Impaled"@, "Gored"@, "Infested"@, "Opened"@, "Purged"@,
        "Desecrated"@, "Sacrificed"@, "Eviscerated"@, "Annihilated"@, "Intoxicated"@,
        "Envenmonated"@, "Incarnated"@, "Discarnated"@, "Entangled"@, "Haunted"@,
    ]
}

/// The name of death type `i` (`DEATH_TYPES[i]`), if there is one.
pub fn death_type_name(i: usize) -> (r: Option<&'static str>)
    ensures
        r matches Some(s) ==> i < 17 && s@ == death_types()[i as int],
        r is None <==> i >= 17,
{
    let names: [&'static str; 17] = [
        "Fallen", "Swarmed", "Impaled", "Gored", "Infested", "Opened", "Purged",
        "Desecrated", "Sacrificed", "Eviscerated", "Annihilated", "Intoxicated",
        "Envenmonated", "Incarnated", "Discarnated", "Entangled", "Haunted",
    ];
    if i < 17 {
        let s = names[i];
        proof {
            assert(names@[i as int]@ == death_types()[i as int]);
        }
        Some(s)
    } else {
        None
    }
}


/// The names of the ways to die in capitals, by death type number.
pub open spec fn death_types_caps() -> Seq<Seq<char>> {
    seq![
        "FALLEN"@, "SWARMED"@, "IMPALED"@, "GORED"@, "INFESTED"@, "OPENED"@, "PURGED"@,
        "DESECRATED"@, "SACRIFICED"@, "EVISCERATED"@, "ANNIHILATED"@, "INTOXICATED"@,
        "ENVENOMATED"@, "INCARNATED"@, "DISCARNATED"@, "ENTANGLED"@, "HAUNTED"@,
    ]
}

/// The capitalised name of death type `i` (`DEATH_TYPES_CAPS[i]`), if
/// there is one.
pub fn death_type_caps(i: usize) -> (r: Option<&'static str>)
    ensures
        r matches Some(s) ==> i < 17 && s@ == death_types_caps()[i as int],
        r is None <==> i >= 17,
{
    let names: [&'static str; 17] = [
        "FALLEN", "SWARMED", "IMPALED", "GORED", "INFESTED", "OPENED", "PURGED",
        "DESECRATED", "SACRIFICED", "EVISCERATED", "ANNIHILATED", "INTOXICATED",
        "ENVENOMATED", "INCARNATED", "DISCARNATED", "ENTANGLED", "HAUNTED",
    ];
    if i < 17 {
        let s = names[i];
        proof {
            assert(names@[i as int]@ == death_types_caps()[i as int]);
        }
        Some(s)
    } else {
        None
    }
}

} // verus!
