//! TUI capabilities: the data-driven permission model by which the kernel tells the
//! TUI which panels and features it may show.

use vstd::prelude::*;

verus! {

/// Subscription tier of the TUI user.
#[derive(Debug, Clone, Copy, PartialEq, Eq, Structural, Hash, PartialOrd, Ord)]
pub enum Tier {
    /// Minimal monitoring.
    Free,
    /// Four-split layout, basic time-travel debugging.
    Pro,
    /// Enhanced metrics and chaos statistics.
    Ultra,
    /// Full access, including Sovereign panels.
    Enterprise,
}

impl Tier {
    /// The rank of a tier, from 0 (Free) to 3 (Enterprise).
    pub open spec fn rank(self) -> u32 {
        match self {
            Tier::Free => 0,
            Tier::Pro => 1,
            Tier::Ultra => 2,
            Tier::Enterprise => 3,
        }
    }

    /// The human-readable name of a tier.
    pub open spec fn spec_display_name(self) -> Seq<char> {
        match self {
            Tier::Free => "Free"@,
            Tier::Pro => "Pro"@,
            Tier::Ultra => "Ultra"@,
            Tier::Enterprise => "Enterprise"@,
        }
    }

    /// The human-readable name of this tier.
    pub fn display_name(&self) -> (r: &'static str)
        ensures
            r@ == self.spec_display_name(),
    {
        match self {
            Tier::Free => "Free",
            Tier::Pro => "Pro",
            Tier::Ultra => "Ultra",
            Tier::Enterprise => "Enterprise",
        }
    }

    /// The priority of this tier; higher means more resources.
    pub fn priority(&self) -> (r: u32)
        ensures
            r == self.rank(),
    {
        match self {
            Tier::Free => 0,
            Tier::Pro => 1,
            Tier::Ultra => 2,
            Tier::Enterprise => 3,
        }
    }
}

/// A panel the TUI can render.
#[derive(Debug, Clone, Copy, PartialEq, Eq, Structural, Hash)]
pub enum PanelType {
    /// Kraken load-testing dashboard.
    Kraken,
    /// Axiom verification engine status.
    Axiom,
    /// API statistics (Pro and up).
    ApiStats,
    /// Chaos injection tracking (Ultra and up).
    ChaosRadar,
    /// Resilience metrics (Ultra and up).
    ResilienceStats,
    /// Time-travel debugger (Pro and up).
    TimeTravel,
    /// Sovereign capabilities (Enterprise only).
    Sovereign,
    /// Security events (Enterprise only).
    SecurityAudit,
}

/// Panels of the Free tier.
pub open spec fn free_panels() -> Seq<PanelType> {
    seq![PanelType::Kraken, PanelType::Axiom]
}

/// Panels of the Pro tier.
pub open spec fn pro_panels() -> Seq<PanelType> {
    seq![PanelType::Kraken, PanelType::Axiom, PanelType::ApiStats, PanelType::TimeTravel]
}

/// Panels of the Ultra tier.
pub open spec fn ultra_panels() -> Seq<PanelType> {
    seq![
        PanelType::Kraken,
        PanelType::Axiom,
        PanelType::ApiStats,
        PanelType::ChaosRadar,
        PanelType::ResilienceStats,
        PanelType::TimeTravel,
    ]
}

/// Panels of the Enterprise tier: all of them.
pub open spec fn enterprise_panels() -> Seq<PanelType> {
    seq![
        PanelType::Kraken,
        PanelType::Axiom,
        PanelType::ApiStats,
        PanelType::ChaosRadar,
        PanelType::ResilienceStats,
        PanelType::TimeTravel,
        PanelType::Sovereign,
        PanelType::SecurityAudit,
    ]
}

/// The capabilities object injected from the kernel into the TUI.
#[derive(Debug, Clone)]
pub struct TuiCapabilities {
    /// Panels this TUI may render.
    pub allowed_panels: Vec<PanelType>,
    /// Whether time-travel debugging is enabled.
    pub enable_ttd: bool,
    /// Refresh interval in milliseconds.
    pub refresh_rate_ms: u64,
    /// The tier that produced these capabilities.
    pub tier: Tier,
    /// Ownership signature; `None` when unauthenticated.
    pub signature: Option<String>,
    /// Whether the current authentication is valid.
    pub is_authenticated: bool,
}

impl TuiCapabilities {
    /// The signature line as displayed.
    pub open spec fn signature_text(self) -> Seq<char> {
        match self.signature {
            Some(sig) => "Laplace-Signature: "@ + sig@ + " ✓"@,
            None => "Laplace-Signature: Not Provided"@,
        }
    }

    /// Free tier: Kraken and Axiom panels, no time travel, 500 ms refresh,
    /// unauthenticated.
    pub fn free() -> (r: Self)
        ensures
            r.allowed_panels@ == free_panels(),
            !r.enable_ttd,
            r.refresh_rate_ms == 500,
            r.tier == Tier::Free,
            r.signature is None,
            !r.is_authenticated,
    {
        let r = TuiCapabilities {
            allowed_panels: vec![PanelType::Kraken, PanelType::Axiom],
            enable_ttd: false,
            refresh_rate_ms: 500,
            tier: Tier::Free,
            signature: None,
            is_authenticated: false,
        };
        assert(r.allowed_panels@ =~= free_panels());
        r
    }

    /// Pro tier: adds API statistics and time travel, 200 ms refresh.
    pub fn pro() -> (r: Self)
        ensures
            r.allowed_panels@ == pro_panels(),
            r.enable_ttd,
            r.refresh_rate_ms == 200,
            r.tier == Tier::Pro,
            r.signature matches Some(s) && s@ == "LAPLACE-SIG-2026-PRO-DEMO"@,
            r.is_authenticated,
    {
        let r = TuiCapabilities {
            allowed_panels: vec![
                PanelType::Kraken,
                PanelType::Axiom,
                PanelType::ApiStats,
                PanelType::TimeTravel,
            ],
            enable_ttd: true,
            refresh_rate_ms: 200,
            tier: Tier::Pro,
            signature: Some(String::from_str("LAPLACE-SIG-2026-PRO-DEMO")),
            is_authenticated: true,
        };
        assert(r.allowed_panels@ =~= pro_panels());
        r
    }

    /// Ultra tier: adds chaos radar and resilience statistics, 100 ms refresh.
    pub fn ultra() -> (r: Self)
        ensures
            r.allowed_panels@ == ultra_panels(),
            r.enable_ttd,
            r.refresh_rate_ms == 100,
            r.tier == Tier::Ultra,
            r.signature matches Some(s) && s@ == "LAPLACE-SIG-2026-ULTRA-DEMO"@,
            r.is_authenticated,
    {
        let r = TuiCapabilities {
            allowed_panels: vec![
                PanelType::Kraken,
                PanelType::Axiom,
                PanelType::ApiStats,
                PanelType::ChaosRadar,
                PanelType::ResilienceStats,
                PanelType::TimeTravel,
            ],
            enable_ttd: true,
            refresh_rate_ms: 100,
            tier: Tier::Ultra,
            signature: Some(String::from_str("LAPLACE-SIG-2026-ULTRA-DEMO")),
            is_authenticated: true,
        };
        assert(r.allowed_panels@ =~= ultra_panels());
        r
    }

    /// Enterprise tier: every panel, 100 ms refresh.
    pub fn enterprise() -> (r: Self)
        ensures
            r.allowed_panels@ == enterprise_panels(),
            r.enable_ttd,
            r.refresh_rate_ms == 100,
            r.tier == Tier::Enterprise,
            r.signature matches Some(s) && s@ == "LAPLACE-SIG-2026-ENT-DEMO"@,
            r.is_authenticated,
    {
        let r = TuiCapabilities {
            allowed_panels: vec![
                PanelType::Kraken,
                PanelType::Axiom,
                PanelType::ApiStats,
                PanelType::ChaosRadar,
                PanelType::ResilienceStats,
                PanelType::TimeTravel,
                PanelType::Sovereign,
                PanelType::SecurityAudit,
            ],
            enable_ttd: true,
            refresh_rate_ms: 100,
            tier: Tier::Enterprise,
            signature: Some(String::from_str("LAPLACE-SIG-2026-ENT-DEMO")),
            is_authenticated: true,
        };
        assert(r.allowed_panels@ =~= enterprise_panels());
        r
    }

    /// Whether `panel` may be rendered.
    pub fn has_panel(&self, panel: PanelType) -> (r: bool)
        ensures
            r == self.allowed_panels@.contains(panel),
    {
        let mut i: usize = 0;
        while i < self.allowed_panels.len()
            invariant
                i <= self.allowed_panels@.len(),
                forall|j: int| 0 <= j < i ==> self.allowed_panels@[j] != panel,
            decreases self.allowed_panels@.len() - i,
        {
            if self.allowed_panels[i] == panel {
                return true;
            }
            i = i + 1;
        }
        false
    }

    /// Whether any of `panels` may be rendered.
    pub fn has_any_panel(&self, panels: &[PanelType]) -> (r: bool)
        ensures
            r == exists|p: PanelType| panels@.contains(p) && self.allowed_panels@.contains(p),
    {
        let mut i: usize = 0;
        while i < panels.len()
            invariant
                i <= panels@.len(),
                forall|j: int| 0 <= j < i ==> !self.allowed_panels@.contains(#[trigger] panels@[j]),
            decreases panels@.len() - i,
        {
            if self.has_panel(panels[i]) {
                assert(panels@.contains(panels@[i as int]));
                return true;
            }
            i = i + 1;
        }
        proof {
            assert forall|p: PanelType| panels@.contains(p) implies !self.allowed_panels@.contains(
                p,
            ) by {
                let j = choose|j: int| 0 <= j < panels@.len() && panels@[j] == p;
            }
        }
        false
    }

    /// The authentication status as displayed.
    pub fn auth_display(&self) -> (r: &'static str)
        ensures
            r@ == if self.is_authenticated { "✓ Active"@ } else { "✗ Failed"@ },
    {
        if self.is_authenticated {
            "✓ Active"
        } else {
            "✗ Failed"
        }
    }

    /// The signature line, showing ownership verification.
    pub fn signature_display(&self) -> (r: String)
        ensures
            r@ == self.signature_text(),
    {
        match &self.signature {
            Some(sig) => String::from_str("Laplace-Signature: ").concat(sig.as_str()).concat(" ✓"),
            None => String::from_str("Laplace-Signature: Not Provided"),
        }
    }
}

/// Each tier's panels include those of every lower tier, and higher ranks refresh no
/// slower.
pub proof fn tier_panels_nested(p: PanelType)
    ensures
        free_panels().contains(p) ==> pro_panels().contains(p),
        pro_panels().contains(p) ==> ultra_panels().contains(p),
        ultra_panels().contains(p) ==> enterprise_panels().contains(p),
        enterprise_panels().contains(p),
{
    if free_panels().contains(p) {
        let j = choose|j: int| 0 <= j < free_panels().len() && free_panels()[j] == p;
        assert(pro_panels()[j] == p);
    }
    if pro_panels().contains(p) {
        let j = choose|j: int| 0 <= j < pro_panels().len() && pro_panels()[j] == p;
        if j < 2 {
            assert(ultra_panels()[j] == p);
        } else if j == 2 {
            assert(ultra_panels()[2] == p);
        } else {
            assert(ultra_panels()[5] == p);
        }
    }
    if ultra_panels().contains(p) {
        let j = choose|j: int| 0 <= j < ultra_panels().len() && ultra_panels()[j] == p;
        assert(enterprise_panels()[j] == p);
    }
    match p {
        PanelType::Kraken => assert(enterprise_panels()[0] == p),
        PanelType::Axiom => assert(enterprise_panels()[1] == p),
        PanelType::ApiStats => assert(enterprise_panels()[2] == p),
        PanelType::ChaosRadar => assert(enterprise_panels()[3] == p),
        PanelType::ResilienceStats => assert(enterprise_panels()[4] == p),
        PanelType::TimeTravel => assert(enterprise_panels()[5] == p),
        PanelType::Sovereign => assert(enterprise_panels()[6] == p),
        PanelType::SecurityAudit => assert(enterprise_panels()[7] == p),
    }
}

/// Distinct tiers have distinct ranks.
pub proof fn tier_ranks_distinct(a: Tier, b: Tier)
    ensures
        a != b ==> a.rank() != b.rank(),
{
}

} // verus!
