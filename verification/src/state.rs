use vstd::prelude::*;

verus! {

/// Protocol phase of a connection. It decides which packet IDs are legal.
#[derive(Clone, Copy, Debug, PartialEq, Eq, Structural)]
pub enum ClientStatus {
    Handshake,
    Status,
    Login,
    Play,
}

/// What the handler of a connection does after a read.
#[derive(Clone, Copy, Debug, PartialEq, Eq, Structural)]
pub enum ClientChannelSignal {
    KeepAlive,
    Shutdown,
}

/// Selector a handshake carries to ask for the status phase.
pub const NEXT_STATE_STATUS: i32 = 1;

/// Selector a handshake carries to ask for the login phase.
pub const NEXT_STATE_LOGIN: i32 = 2;

/// The phase a handshake asks for with the selector `next_state`, if any.
pub open spec fn requested_phase(next_state: i32) -> Option<ClientStatus> {
    if next_state == NEXT_STATE_STATUS {
        Some(ClientStatus::Status)
    } else if next_state == NEXT_STATE_LOGIN {
        Some(ClientStatus::Login)
    } else {
        None
    }
}

impl ClientStatus {
    /// One step of the phase machine: a handshake leads to status or login,
    /// a login leads to play, and nothing else moves.
    pub open spec fn may_follow(self, next: ClientStatus) -> bool {
        match (self, next) {
            (ClientStatus::Handshake, ClientStatus::Status) => true,
            (ClientStatus::Handshake, ClientStatus::Login) => true,
            (ClientStatus::Login, ClientStatus::Play) => true,
            _ => false,
        }
    }

    /// `later` is this phase or can be reached from it in some number of steps.
    pub open spec fn leads_to(self, later: ClientStatus) -> bool {
        self == later || self.may_follow(later) || (self == ClientStatus::Handshake && later
            == ClientStatus::Play)
    }

    /// How far along the phase is: the number of steps taken since the handshake.
    pub open spec fn depth(self) -> nat {
        match self {
            ClientStatus::Handshake => 0,
            ClientStatus::Status => 1,
            ClientStatus::Login => 1,
            ClientStatus::Play => 2,
        }
    }

    /// The name of the phase.
    pub open spec fn label(self) -> Seq<char> {
        match self {
            ClientStatus::Handshake => "Handshake"@,
            ClientStatus::Status => "Status"@,
            ClientStatus::Login => "Login"@,
            ClientStatus::Play => "Play"@,
        }
    }

    /// The name of the phase.
    pub fn name(self) -> (name: &'static str)
        ensures
            name@ == self.label(),
    {
        match self {
            ClientStatus::Handshake => "Handshake",
            ClientStatus::Status => "Status",
            ClientStatus::Login => "Login",
            ClientStatus::Play => "Play",
        }
    }

    /// The phase every connection starts in.
    pub fn initial() -> (status: ClientStatus)
        ensures
            status == ClientStatus::Handshake,
    {
        ClientStatus::Handshake
    }

    /// The phase that the selector of a handshake names: 1 for status, 2 for
    /// login, nothing for any other number.
    pub fn from_next_state(next_state: i32) -> (target: Option<ClientStatus>)
        ensures
            target == requested_phase(next_state),
    {
        if next_state == NEXT_STATE_STATUS {
            Some(ClientStatus::Status)
        } else if next_state == NEXT_STATE_LOGIN {
            Some(ClientStatus::Login)
        } else {
            None
        }
    }

    /// Whether a connection in this phase may move to `next` in one step.
    pub fn can_move_to(self, next: ClientStatus) -> (allowed: bool)
        ensures
            allowed == self.may_follow(next),
    {
        match (self, next) {
            (ClientStatus::Handshake, ClientStatus::Status) => true,
            (ClientStatus::Handshake, ClientStatus::Login) => true,
            (ClientStatus::Login, ClientStatus::Play) => true,
            _ => false,
        }
    }
}

/// Every step moves strictly forward: it goes one deeper, so no sequence of
/// steps comes back to a phase it has left, and none arrives at the handshake.
pub proof fn lemma_steps_move_forward(from: ClientStatus, to: ClientStatus)
    requires
        from.may_follow(to),
    ensures
        to.depth() == from.depth() + 1,
        to != ClientStatus::Handshake,
        !to.leads_to(from),
{
}

/// `leads_to` is what steps can do and no more: it holds of a phase and
/// itself, it is closed under steps, and it never runs against the depth.
pub proof fn lemma_leads_to_is_reachability(a: ClientStatus, b: ClientStatus, c: ClientStatus)
    ensures
        a.leads_to(a),
        a.leads_to(b) && b.may_follow(c) ==> a.leads_to(c),
        a.leads_to(b) && b.leads_to(c) ==> a.leads_to(c),
        a.leads_to(b) ==> a.depth() <= b.depth(),
        a.leads_to(b) && b.leads_to(a) ==> a == b,
{
}

/// Play is final, and a phase that a handshake can ask for is one step from it.
pub proof fn lemma_phase_ends(next: ClientStatus, next_state: i32)
    ensures
        !ClientStatus::Play.may_follow(next),
        !ClientStatus::Status.may_follow(next),
        requested_phase(next_state) matches Some(target) ==> ClientStatus::Handshake.may_follow(
            target,
        ),
{
}

} // verus!
