use vstd::prelude::*;
use vstd::string::StringExecFns;
use crate::detect::{describes, scan};
use crate::patterns::{get_pii_patterns, patterns_view, registry, PIIPattern};
use crate::receipt::{
    clock_now, elapsed_ns, generate_receipt_id, hash_text, hash_view, is_lower_hex,
    GovernanceReceipt, UtcTimestamp,
};
use crate::types::{GovernanceAction, PIIDetectionResult};

verus! {

/// Policy version and the action taken on text that holds personal information.
#[derive(Debug, Clone)]
pub struct TorkConfig {
    pub policy_version: String,
    pub default_action: GovernanceAction,
}

impl Default for TorkConfig {
    fn default() -> (r: Self)
        ensures
            r.policy_version@ == "1.0.0"@,
            r.default_action == GovernanceAction::Redact,
    {
        TorkConfig {
            policy_version: String::from_str("1.0.0"),
            default_action: GovernanceAction::Redact,
        }
    }
}

/// How often each action was taken.
#[derive(Debug, Clone)]
pub struct ActionCounts {
    pub allow: u64,
    pub deny: u64,
    pub redact: u64,
    pub escalate: u64,
}

impl ActionCounts {
    pub open spec fn is_zero(self) -> bool {
        self.allow == 0 && self.deny == 0 && self.redact == 0 && self.escalate == 0
    }

    /// These counts with the counter of `action` raised by one (held at the maximum).
    pub open spec fn counted(self, action: GovernanceAction) -> ActionCounts {
        match action {
            GovernanceAction::Allow => ActionCounts { allow: self.allow.saturating_add(1), ..self },
            GovernanceAction::Deny => ActionCounts { deny: self.deny.saturating_add(1), ..self },
            GovernanceAction::Redact => ActionCounts { redact: self.redact.saturating_add(1), ..self },
            GovernanceAction::Escalate => ActionCounts {
                escalate: self.escalate.saturating_add(1),
                ..self
            },
        }
    }

    /// Count one more use of `action`.
    pub fn count(&mut self, action: GovernanceAction)
        ensures
            *final(self) == old(self).counted(action),
    {
        match action {
            GovernanceAction::Allow => self.allow = self.allow.saturating_add(1),
            GovernanceAction::Deny => self.deny = self.deny.saturating_add(1),
            GovernanceAction::Redact => self.redact = self.redact.saturating_add(1),
            GovernanceAction::Escalate => self.escalate = self.escalate.saturating_add(1),
        }
    }
}

impl Default for ActionCounts {
    fn default() -> (r: Self)
        ensures
            r.is_zero(),
    {
        ActionCounts { allow: 0, deny: 0, redact: 0, escalate: 0 }
    }
}

/// Running totals over all governed texts.
#[derive(Debug, Clone)]
pub struct TorkStats {
    pub total_calls: u64,
    pub total_pii_detected: u64,
    pub total_processing_time_ns: u64,
    pub action_counts: ActionCounts,
}

impl TorkStats {
    pub open spec fn is_zero(self) -> bool {
        &&& self.total_calls == 0
        &&& self.total_pii_detected == 0
        &&& self.total_processing_time_ns == 0
        &&& self.action_counts.is_zero()
    }

    /// These totals after one more call that found personal information or
    /// not, took `action` and ran `elapsed_ns` nanoseconds (each total held at
    /// the maximum).
    pub open spec fn recorded(self, has_pii: bool, action: GovernanceAction, elapsed_ns: u64) -> TorkStats {
        TorkStats {
            total_calls: self.total_calls.saturating_add(1),
            total_pii_detected: if has_pii {
                self.total_pii_detected.saturating_add(1)
            } else {
                self.total_pii_detected
            },
            total_processing_time_ns: self.total_processing_time_ns.saturating_add(elapsed_ns),
            action_counts: self.action_counts.counted(action),
        }
    }

    /// Account for one governed text.
    pub fn record(&mut self, has_pii: bool, action: GovernanceAction, elapsed_ns: u64)
        ensures
            *final(self) == old(self).recorded(has_pii, action, elapsed_ns),
    {
        self.total_calls = self.total_calls.saturating_add(1);
        if has_pii {
            self.total_pii_detected = self.total_pii_detected.saturating_add(1);
        }
        self.total_processing_time_ns = self.total_processing_time_ns.saturating_add(elapsed_ns);
        self.action_counts.count(action);
    }
}

impl Default for TorkStats {
    fn default() -> (r: Self)
        ensures
            r.is_zero(),
    {
        TorkStats {
            total_calls: 0,
            total_pii_detected: 0,
            total_processing_time_ns: 0,
            action_counts: ActionCounts::default(),
        }
    }
}

/// The outcome of governing one text.
#[derive(Debug, Clone)]
pub struct GovernanceResult {
    pub action: GovernanceAction,
    pub output: String,
    pub pii: PIIDetectionResult,
    pub receipt: GovernanceReceipt,
}

/// The action for a text: `default_action` where personal information was
/// found, `Allow` where none was.
pub open spec fn action_for(has_pii: bool, default_action: GovernanceAction) -> GovernanceAction {
    if has_pii {
        default_action
    } else {
        GovernanceAction::Allow
    }
}

/// The text handed back for `action`: the redacted text under `Redact`, the
/// input itself under every other action.
pub open spec fn output_for(action: GovernanceAction, input: Seq<char>, redacted: Seq<char>) -> Seq<char> {
    if action == GovernanceAction::Redact {
        redacted
    } else {
        input
    }
}

/// Choose the action and the output for `input`, given what a scan of it found.
pub fn decide(config: &TorkConfig, pii: &PIIDetectionResult, input: &str) -> (r: (
    GovernanceAction,
    String,
))
    ensures
        r.0 == action_for(pii.has_pii, config.default_action),
        r.1@ == output_for(r.0, input@, pii.redacted_text@),
{
    if pii.has_pii {
        let action = config.default_action;
        let output = match action {
            GovernanceAction::Redact => pii.redacted_text.clone(),
            _ => input.to_string(),
        };
        (action, output)
    } else {
        (GovernanceAction::Allow, input.to_string())
    }
}

/// The governance engine: configuration, running statistics and the compiled registry.
pub struct Tork {
    config: TorkConfig,
    stats: TorkStats,
    patterns: Vec<PIIPattern>,
}

impl Tork {
    /// The engine holds the compiled registry.
    pub closed spec fn wf(self) -> bool {
        patterns_view(self.patterns@) == registry()
    }

    pub closed spec fn config(self) -> TorkConfig {
        self.config
    }

    pub closed spec fn stats(self) -> TorkStats {
        self.stats
    }

    /// An engine with the default configuration and zeroed statistics.
    pub fn new() -> (r: Self)
        ensures
            r.config().policy_version@ == "1.0.0"@,
            r.config().default_action == GovernanceAction::Redact,
            r.stats().is_zero(),
            r.wf(),
    {
        Tork { config: TorkConfig::default(), stats: TorkStats::default(), patterns: get_pii_patterns() }
    }

    /// An engine with `config` and zeroed statistics.
    pub fn with_config(config: TorkConfig) -> (r: Self)
        ensures
            r.config() == config,
            r.stats().is_zero(),
            r.wf(),
    {
        Tork { config, stats: TorkStats::default(), patterns: get_pii_patterns() }
    }

    /// Scan `input`, decide, issue a receipt and account for the call.
    pub fn govern(&mut self, input: &str) -> (r: GovernanceResult)
        requires
            old(self).wf(),
        ensures
            final(self).wf(),
            describes(r.pii, registry(), input@),
            r.action == action_for(r.pii.has_pii, old(self).config().default_action),
            r.output@ == output_for(r.action, input@, r.pii.redacted_text@),
            !r.pii.has_pii ==> r.action == GovernanceAction::Allow && r.output@ == input@,
            r.receipt.action == r.action,
            r.receipt.input_hash@ == hash_view(input@),
            r.receipt.output_hash@ == hash_view(r.output@),
            r.receipt.policy_version@ == old(self).config().policy_version@,
            r.receipt.receipt_id@.len() == 37,
            r.receipt.receipt_id@.take(5) == "rcpt_"@,
            forall|i: int|
                5 <= i < r.receipt.receipt_id@.len() ==> is_lower_hex(
                    #[trigger] r.receipt.receipt_id@[i],
                ),
            r.receipt.timestamp.nanos < 2_000_000_000,
            final(self).config() == old(self).config(),
            final(self).stats() == old(self).stats().recorded(
                r.pii.has_pii,
                r.action,
                r.receipt.processing_time_ns,
            ),
    {
        let start = clock_now();
        let pii = scan(&self.patterns, input);
        let (action, output) = decide(&self.config, &pii, input);
        let processing_time_ns = elapsed_ns(&start);
        let receipt = GovernanceReceipt {
            receipt_id: generate_receipt_id(),
            timestamp: UtcTimestamp::now(),
            input_hash: hash_text(input),
            output_hash: hash_text(output.as_str()),
            action,
            policy_version: self.config.policy_version.clone(),
            processing_time_ns,
        };
        self.stats.record(pii.has_pii, action, processing_time_ns);
        GovernanceResult { action, output, pii, receipt }
    }

    /// The current statistics.
    pub fn get_stats(&self) -> (r: &TorkStats)
        ensures
            *r == self.stats(),
    {
        &self.stats
    }

    /// Zero every statistic; the configuration stays.
    pub fn reset_stats(&mut self)
        ensures
            final(self).stats().is_zero(),
            final(self).config() == old(self).config(),
            final(self).wf() == old(self).wf(),
    {
        self.stats = TorkStats::default();
    }

    /// The current configuration.
    pub fn get_config(&self) -> (r: &TorkConfig)
        ensures
            *r == self.config(),
    {
        &self.config
    }

    /// Replace the configuration for later calls; the statistics stay.
    pub fn set_config(&mut self, config: TorkConfig)
        ensures
            final(self).config() == config,
            final(self).stats() == old(self).stats(),
            final(self).wf() == old(self).wf(),
    {
        self.config = config;
    }
}

impl Default for Tork {
    fn default() -> (r: Self)
        ensures
            r.config().policy_version@ == "1.0.0"@,
            r.config().default_action == GovernanceAction::Redact,
            r.stats().is_zero(),
            r.wf(),
    {
        Tork::new()
    }
}

} // verus!
