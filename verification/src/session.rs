//! The per-connection protocol state machine.
//!
//! A connection climbs `Connected -> VersionVerified -> Authenticated ->
//! InGame`, may step back from the game to the character list, and every
//! opcode that is not valid for the current state is ignored with the
//! state unchanged. The connection layer performs the I/O each directive
//! calls for and feeds the outcome back into the transition.

use vstd::prelude::*;

verus! {

/// Client opcode: client version announcement.
pub const C_CLIENTVERSION: u8 = 127;

/// Client opcode: direct account/password login.
pub const C_LOGINPACKET: u8 = 119;

/// Client opcode: portal login with an action byte prefix.
pub const C_BEANFUNLOGIN: u8 = 210;

/// Client opcode: enter the world with a selected character.
pub const C_LOGINTOSERVER: u8 = 131;

/// Client opcode: create a character.
pub const C_NEWCHAR: u8 = 201;

/// Client opcode: delete a character.
pub const C_DELETECHAR: u8 = 133;

/// Client opcode: move one tile.
pub const C_MOVECHAR: u8 = 95;

/// Client opcode: turn in place.
pub const C_CHANGEHEADING: u8 = 20;

/// Client opcode: chat message.
pub const C_CHAT: u8 = 84;

/// Client opcode: melee attack.
pub const C_ATTACK: u8 = 103;

/// Client opcode: cast a skill.
pub const C_USESKILL: u8 = 42;

/// Client opcode: use an inventory item.
pub const C_USEITEM: u8 = 34;

/// Client opcode: keep-alive heartbeat.
pub const C_KEEPALIVE: u8 = 157;

/// Client opcode: quit the game.
pub const C_QUITGAME: u8 = 255;

/// Client opcode: return to the character list.
pub const C_CHANGECHAR: u8 = 111;

/// Client opcode: the restart side menu.
pub const C_RESTARTMENU: u8 = 250;

/// Client opcode: respawn after death.
pub const C_RESTART: u8 = 92;

/// Server opcode: the unencrypted handshake frame.
pub const S_OPCODE_INITPACKET: u8 = 64;

/// Server opcode: disconnect notice.
pub const S_OPCODE_DISCONNECT: u8 = 110;

/// Server opcode: an occupant's appearance packet.
pub const S_OPCODE_CHARPACK: u8 = 3;

/// Login reply: accepted.
pub const REASON_LOGIN_OK: u8 = 0;

/// Login reply: generic access failure (bad password, ban, or the
/// persistence collaborator being unavailable).
pub const REASON_ACCESS_FAILED: u8 = 8;

/// Login reply: the account is already online.
pub const REASON_ACCOUNT_IN_USE: u8 = 22;

/// Character creation reply: accepted.
pub const CREATE_OK: u8 = 0;

/// Character creation reply: the name is already taken.
pub const CREATE_ALREADY_EXISTS: u8 = 6;

/// Character creation reply: the stat budget is wrong.
pub const CREATE_WRONG_AMOUNT: u8 = 9;

/// Character creation reply: the name is empty or too long.
pub const CREATE_INVALID_NAME: u8 = 21;

/// Longest accepted character name, in bytes.
pub const MAX_NAME_LEN: usize = 16;

/// Protocol state of one connection.
#[derive(Debug, Clone, Copy, PartialEq, Eq, Structural)]
pub enum SessionState {
    Connected,
    VersionVerified,
    Authenticated,
    InGame,
}

/// What the connection layer must do with a packet, as decided by the
/// state machine.
#[derive(Debug, Clone, Copy, PartialEq, Eq, Structural)]
pub enum SessionDirective {
    /// Reply with the server version and advance to `VersionVerified`.
    SendServerVersion,
    /// Authenticate against the persistence collaborator.
    ProcessLogin,
    /// Load the selected character and enter the world.
    SelectCharacter,
    /// Validate and persist a new character.
    CreateCharacter,
    /// Mark a character for deletion.
    DeleteCharacter,
    /// Apply a one-tile move and broadcast it.
    Move,
    /// Turn in place.
    ChangeHeading,
    /// Echo and broadcast a chat line.
    Chat,
    /// Resolve a melee attack.
    Attack,
    /// Resolve a skill cast.
    UseSkill,
    /// Resolve an item use.
    UseItem,
    /// Heartbeat; no reply.
    KeepAlive,
    /// Send the disconnect notice and terminate.
    Quit,
    /// Persist and fall back to the character list.
    ReturnToCharSelect,
    /// The restart side menu; nothing to do yet.
    RestartMenu,
    /// Resend the world-init sequence after death.
    RestartAfterDeath,
    /// The opcode is not valid for the state: log and ignore.
    Ignore,
}

/// The dispatch table: which directive each `(state, opcode)` pair maps
/// to. Everything outside the table is `Ignore`.
pub open spec fn spec_dispatch(state: SessionState, opcode: u8) -> SessionDirective {
    match state {
        SessionState::Connected => if opcode == C_CLIENTVERSION {
            SessionDirective::SendServerVersion
        } else {
            SessionDirective::Ignore
        },
        SessionState::VersionVerified => if opcode == C_BEANFUNLOGIN || opcode == C_LOGINPACKET {
            SessionDirective::ProcessLogin
        } else {
            SessionDirective::Ignore
        },
        SessionState::Authenticated => if opcode == C_LOGINTOSERVER {
            SessionDirective::SelectCharacter
        } else if opcode == C_NEWCHAR {
            SessionDirective::CreateCharacter
        } else if opcode == C_DELETECHAR {
            SessionDirective::DeleteCharacter
        } else {
            SessionDirective::Ignore
        },
        SessionState::InGame => if opcode == C_MOVECHAR {
            SessionDirective::Move
        } else if opcode == C_CHANGEHEADING {
            SessionDirective::ChangeHeading
        } else if opcode == C_CHAT {
            SessionDirective::Chat
        } else if opcode == C_ATTACK {
            SessionDirective::Attack
        } else if opcode == C_USESKILL {
            SessionDirective::UseSkill
        } else if opcode == C_USEITEM {
            SessionDirective::UseItem
        } else if opcode == C_KEEPALIVE {
            SessionDirective::KeepAlive
        } else if opcode == C_QUITGAME {
            SessionDirective::Quit
        } else if opcode == C_CHANGECHAR {
            SessionDirective::ReturnToCharSelect
        } else if opcode == C_RESTARTMENU {
            SessionDirective::RestartMenu
        } else if opcode == C_RESTART {
            SessionDirective::RestartAfterDeath
        } else {
            SessionDirective::Ignore
        },
    }
}

/// The state after a directive runs; `success` reports whether the
/// collaborator work the directive called for succeeded (a login
/// accepted, a character loaded). Only three directives ever change the
/// state: a version check advances, an accepted login advances, an
/// entered world advances, and the in-game menu falls back to the
/// character list.
pub open spec fn spec_next_state(
    state: SessionState,
    directive: SessionDirective,
    success: bool,
) -> SessionState {
    match directive {
        SessionDirective::SendServerVersion => SessionState::VersionVerified,
        SessionDirective::ProcessLogin => if success {
            SessionState::Authenticated
        } else {
            state
        },
        SessionDirective::SelectCharacter => if success {
            SessionState::InGame
        } else {
            state
        },
        SessionDirective::ReturnToCharSelect => SessionState::Authenticated,
        _ => state,
    }
}

/// Decide what to do with an incoming opcode in the current state.
pub fn dispatch_opcode(state: SessionState, opcode: u8) -> (d: SessionDirective)
    ensures
        d == spec_dispatch(state, opcode),
{
    match state {
        SessionState::Connected => if opcode == C_CLIENTVERSION {
            SessionDirective::SendServerVersion
        } else {
            SessionDirective::Ignore
        },
        SessionState::VersionVerified => if opcode == C_BEANFUNLOGIN || opcode == C_LOGINPACKET {
            SessionDirective::ProcessLogin
        } else {
            SessionDirective::Ignore
        },
        SessionState::Authenticated => if opcode == C_LOGINTOSERVER {
            SessionDirective::SelectCharacter
        } else if opcode == C_NEWCHAR {
            SessionDirective::CreateCharacter
        } else if opcode == C_DELETECHAR {
            SessionDirective::DeleteCharacter
        } else {
            SessionDirective::Ignore
        },
        SessionState::InGame => if opcode == C_MOVECHAR {
            SessionDirective::Move
        } else if opcode == C_CHANGEHEADING {
            SessionDirective::ChangeHeading
        } else if opcode == C_CHAT {
            SessionDirective::Chat
        } else if opcode == C_ATTACK {
            SessionDirective::Attack
        } else if opcode == C_USESKILL {
            SessionDirective::UseSkill
        } else if opcode == C_USEITEM {
            SessionDirective::UseItem
        } else if opcode == C_KEEPALIVE {
            SessionDirective::KeepAlive
        } else if opcode == C_QUITGAME {
            SessionDirective::Quit
        } else if opcode == C_CHANGECHAR {
            SessionDirective::ReturnToCharSelect
        } else if opcode == C_RESTARTMENU {
            SessionDirective::RestartMenu
        } else if opcode == C_RESTART {
            SessionDirective::RestartAfterDeath
        } else {
            SessionDirective::Ignore
        },
    }
}

/// Advance the state after a directive ran.
pub fn next_state(state: SessionState, directive: SessionDirective, success: bool) -> (s2:
    SessionState)
    ensures
        s2 == spec_next_state(state, directive, success),
{
    match directive {
        SessionDirective::SendServerVersion => SessionState::VersionVerified,
        SessionDirective::ProcessLogin => if success {
            SessionState::Authenticated
        } else {
            state
        },
        SessionDirective::SelectCharacter => if success {
            SessionState::InGame
        } else {
            state
        },
        SessionDirective::ReturnToCharSelect => SessionState::Authenticated,
        _ => state,
    }
}

/// State-machine totality: a `(state, opcode)` pair outside the dispatch
/// table maps to `Ignore`, and processing an ignored opcode never changes
/// the state, whatever the collaborators report.
pub proof fn lemma_unknown_opcode_keeps_state()
    ensures
        forall|state: SessionState, opcode: u8, success: bool|
            spec_dispatch(state, opcode) == SessionDirective::Ignore ==> #[trigger] spec_next_state(
                state,
                spec_dispatch(state, opcode),
                success,
            ) == state,
        forall|state: SessionState, directive: SessionDirective, success: bool|
            #[trigger] spec_next_state(state, directive, success) == state || (directive
                == SessionDirective::SendServerVersion && spec_next_state(state, directive, success)
                == SessionState::VersionVerified) || (directive == SessionDirective::ProcessLogin
                && success && spec_next_state(state, directive, success)
                == SessionState::Authenticated) || (directive == SessionDirective::SelectCharacter
                && success && spec_next_state(state, directive, success) == SessionState::InGame)
                || (directive == SessionDirective::ReturnToCharSelect && spec_next_state(
                state,
                directive,
                success,
            ) == SessionState::Authenticated),
{
}

/// What an account lookup reported about the account named in a login.
#[derive(Debug, Clone, Copy, PartialEq, Eq, Structural)]
pub enum AccountStatus {
    /// No such account yet.
    Missing,
    /// The account exists, with its ban and online flags.
    Found { banned: bool, online: bool },
}

/// The authentication ruling for one login attempt.
#[derive(Debug, Clone, Copy, PartialEq, Eq, Structural)]
pub struct LoginDecision {
    /// Reply code to send (`REASON_LOGIN_OK`, `REASON_ACCESS_FAILED` or
    /// `REASON_ACCOUNT_IN_USE`).
    pub reply: u8,
    /// Whether the connection becomes authenticated.
    pub accept: bool,
    /// Whether an account must first be auto-created for this login.
    pub create_account: bool,
    /// Whether the account must be marked online.
    pub set_online: bool,
}

/// The authentication rule as a function: without persistence every
/// login fails generically; an unknown account is auto-created and
/// accepted; a banned account or a wrong password fails generically; an
/// account already online is refused with its own code; everything else
/// is accepted and marked online.
pub open spec fn spec_login_decision(
    db_available: bool,
    status: AccountStatus,
    password_ok: bool,
) -> LoginDecision {
    if !db_available {
        LoginDecision {
            reply: REASON_ACCESS_FAILED,
            accept: false,
            create_account: false,
            set_online: false,
        }
    } else {
        match status {
            AccountStatus::Missing => LoginDecision {
                reply: REASON_LOGIN_OK,
                accept: true,
                create_account: true,
                set_online: true,
            },
            AccountStatus::Found { banned, online } => {
                if banned {
                    LoginDecision {
                        reply: REASON_ACCESS_FAILED,
                        accept: false,
                        create_account: false,
                        set_online: false,
                    }
                } else if online {
                    LoginDecision {
                        reply: REASON_ACCOUNT_IN_USE,
                        accept: false,
                        create_account: false,
                        set_online: false,
                    }
                } else if !password_ok {
                    LoginDecision {
                        reply: REASON_ACCESS_FAILED,
                        accept: false,
                        create_account: false,
                        set_online: false,
                    }
                } else {
                    LoginDecision {
                        reply: REASON_LOGIN_OK,
                        accept: true,
                        create_account: false,
                        set_online: true,
                    }
                }
            },
        }
    }
}

/// Rule on a login attempt, given what the collaborators reported.
/// The login is accepted exactly when the reply is `REASON_LOGIN_OK`.
pub fn decide_login(db_available: bool, status: AccountStatus, password_ok: bool) -> (d:
    LoginDecision)
    ensures
        d == spec_login_decision(db_available, status, password_ok),
        d.accept == (d.reply == REASON_LOGIN_OK),
{
    if !db_available {
        return LoginDecision {
            reply: REASON_ACCESS_FAILED,
            accept: false,
            create_account: false,
            set_online: false,
        };
    }
    match status {
        AccountStatus::Missing => LoginDecision {
            reply: REASON_LOGIN_OK,
            accept: true,
            create_account: true,
            set_online: true,
        },
        AccountStatus::Found { banned, online } => {
            if banned {
                LoginDecision {
                    reply: REASON_ACCESS_FAILED,
                    accept: false,
                    create_account: false,
                    set_online: false,
                }
            } else if online {
                LoginDecision {
                    reply: REASON_ACCOUNT_IN_USE,
                    accept: false,
                    create_account: false,
                    set_online: false,
                }
            } else if !password_ok {
                LoginDecision {
                    reply: REASON_ACCESS_FAILED,
                    accept: false,
                    create_account: false,
                    set_online: false,
                }
            } else {
                LoginDecision {
                    reply: REASON_LOGIN_OK,
                    accept: true,
                    create_account: false,
                    set_online: true,
                }
            }
        },
    }
}

/// Point-buy budget a new character's six stats must spend, exactly.
pub const STAT_BUDGET_TOTAL: i32 = 75;

/// Lowest value one creation stat may take.
pub const STAT_MIN: i32 = 1;

/// Highest value one creation stat may take.
pub const STAT_MAX: i32 = 35;

/// Whether six creation stats respect the budget: each within
/// `STAT_MIN..=STAT_MAX` and their total exactly `STAT_BUDGET_TOTAL`.
pub open spec fn spec_stat_budget_ok(
    str_stat: int,
    dex_stat: int,
    con_stat: int,
    wis_stat: int,
    cha_stat: int,
    int_stat: int,
) -> bool {
    &&& STAT_MIN <= str_stat <= STAT_MAX
    &&& STAT_MIN <= dex_stat <= STAT_MAX
    &&& STAT_MIN <= con_stat <= STAT_MAX
    &&& STAT_MIN <= wis_stat <= STAT_MAX
    &&& STAT_MIN <= cha_stat <= STAT_MAX
    &&& STAT_MIN <= int_stat <= STAT_MAX
    &&& str_stat + dex_stat + con_stat + wis_stat + cha_stat + int_stat == STAT_BUDGET_TOTAL
}

/// Validate a creation request's stat budget.
pub fn validate_stat_budget(
    str_stat: i32,
    dex_stat: i32,
    con_stat: i32,
    wis_stat: i32,
    cha_stat: i32,
    int_stat: i32,
) -> (ok: bool)
    ensures
        ok == spec_stat_budget_ok(
            str_stat as int,
            dex_stat as int,
            con_stat as int,
            wis_stat as int,
            cha_stat as int,
            int_stat as int,
        ),
{
    if str_stat < STAT_MIN || str_stat > STAT_MAX || dex_stat < STAT_MIN || dex_stat > STAT_MAX
        || con_stat < STAT_MIN || con_stat > STAT_MAX || wis_stat < STAT_MIN || wis_stat > STAT_MAX
        || cha_stat < STAT_MIN || cha_stat > STAT_MAX || int_stat < STAT_MIN || int_stat
        > STAT_MAX {
        return false;
    }
    str_stat + dex_stat + con_stat + wis_stat + cha_stat + int_stat == STAT_BUDGET_TOTAL
}

/// Rule on a character-creation request: an empty or over-long name is
/// invalid, a taken name is refused, a wrong stat budget is refused, and
/// otherwise the creation may proceed. The reply is `CREATE_OK` exactly
/// when the request is accepted.
pub fn decide_char_creation(name_len: usize, name_exists: bool, stats_ok: bool) -> (reply: u8)
    ensures
        name_len == 0 || name_len > MAX_NAME_LEN ==> reply == CREATE_INVALID_NAME,
        0 < name_len <= MAX_NAME_LEN && name_exists ==> reply == CREATE_ALREADY_EXISTS,
        0 < name_len <= MAX_NAME_LEN && !name_exists && !stats_ok ==> reply == CREATE_WRONG_AMOUNT,
        0 < name_len <= MAX_NAME_LEN && !name_exists && stats_ok ==> reply == CREATE_OK,
        (reply == CREATE_OK) == (0 < name_len <= MAX_NAME_LEN && !name_exists && stats_ok),
{
    if name_len == 0 || name_len > MAX_NAME_LEN {
        CREATE_INVALID_NAME
    } else if name_exists {
        CREATE_ALREADY_EXISTS
    } else if !stats_ok {
        CREATE_WRONG_AMOUNT
    } else {
        CREATE_OK
    }
}

} // verus!
