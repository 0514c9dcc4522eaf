//! Declarative configuration of the managed controllers.

use vstd::prelude::*;

verus! {

/// One temperature interval and the fan-speed ceiling that applies inside it.
#[derive(Debug, Clone, Copy, PartialEq, Eq, Structural)]
pub struct FanConfig {
    /// Lower bound of the interval in degrees Celsius, inclusive.
    pub min_temp: u8,
    /// Upper bound of the interval in degrees Celsius, inclusive.
    pub max_temp: u8,
    /// Fan-speed ceiling in percent.
    pub max_fan_speed: u8,
}

/// Which fans of a controller the generated commands address.
#[derive(Debug, Clone)]
pub enum TargetFans {
    /// The first `n` fans, addressed as `0..n`.
    NumFans(u8),
    /// Exactly these fans, numbered from one as on the chassis label.
    TargetFans(Vec<u8>),
}

/// One managed controller: how to reach it and how to drive its fans.
#[derive(Debug, Clone)]
pub struct TargetIlo {
    /// Host name or address of the controller.
    pub host: String,
    /// Account used for both the telemetry and the shell session.
    pub user: String,
    /// Secret of that account. Never written to a log.
    pub password: String,
    /// The fans that are driven.
    pub target_fans: TargetFans,
    /// The temperature intervals, in the order in which they are tried.
    pub temperature_fan_config: Vec<FanConfig>,
}

/// The whole configuration: the polling period and every managed controller.
#[derive(Debug, Clone)]
pub struct IloConfig {
    /// Seconds between two control cycles.
    pub run_period_seconds: u8,
    /// The managed controllers.
    pub targets: Vec<TargetIlo>,
}

/// Why a configuration was turned down.
#[derive(Debug, Clone, Copy, PartialEq, Eq, Structural)]
pub enum ConfigError {
    /// Some interval asks for more than 100 percent.
    FanSpeedOutOfRange,
    /// Every interval is fine, but an explicit fan list names fan 0, which
    /// does not exist in one-based numbering.
    ZeroFanIndex,
}

impl FanConfig {
    /// Whether `temp` lies inside the interval, both bounds included.
    pub open spec fn contains(self, temp: u8) -> bool {
        self.min_temp <= temp && temp <= self.max_temp
    }

    /// The ceiling is a percentage.
    pub open spec fn valid(self) -> bool {
        self.max_fan_speed <= 100
    }

    /// Executable form of [`FanConfig::contains`].
    pub fn covers(&self, temp: u8) -> (hit: bool)
        ensures
            hit == self.contains(temp),
    {
        self.min_temp <= temp && temp <= self.max_temp
    }
}

impl TargetFans {
    /// An explicit list is one-based: it never names fan 0.
    pub open spec fn wf(self) -> bool {
        match self {
            TargetFans::NumFans(_) => true,
            TargetFans::TargetFans(list) => forall|i: int| 0 <= i < list@.len() ==> list@[i] >= 1,
        }
    }

    /// Executable form of [`TargetFans::wf`].
    pub fn is_one_based(&self) -> (ok: bool)
        ensures
            ok == self.wf(),
    {
        match self {
            TargetFans::NumFans(_) => true,
            TargetFans::TargetFans(list) => {
                let mut i: usize = 0;
                while i < list.len()
                    invariant
                        *self == TargetFans::TargetFans(*list),
                        i <= (*list)@.len(),
                        forall|j: int| 0 <= j < i ==> (*list)@[j] >= 1,
                    decreases (*list)@.len() - i,
                {
                    if list[i] == 0 {
                        assert(self->TargetFans_0@[i as int] == 0);
                        return false;
                    }
                    i += 1;
                }
                true
            },
        }
    }
}

/// Every interval of `ranges` holds a percentage.
pub open spec fn speeds_valid(ranges: Seq<FanConfig>) -> bool {
    forall|i: int| 0 <= i < ranges.len() ==> (#[trigger] ranges[i]).valid()
}

impl TargetIlo {
    /// The intervals as a sequence, in declaration order.
    pub open spec fn ranges(self) -> Seq<FanConfig> {
        self.temperature_fan_config@
    }

    /// Everything the control logic relies on.
    pub open spec fn valid(self) -> bool {
        speeds_valid(self.ranges()) && self.target_fans.wf()
    }

    /// Whether every interval holds a percentage.
    pub fn has_valid_speeds(&self) -> (ok: bool)
        ensures
            ok == speeds_valid(self.ranges()),
    {
        let mut i: usize = 0;
        while i < self.temperature_fan_config.len()
            invariant
                i <= self.temperature_fan_config@.len(),
                forall|j: int| 0 <= j < i ==> (#[trigger] self.temperature_fan_config@[j]).valid(),
            decreases self.temperature_fan_config@.len() - i,
        {
            if self.temperature_fan_config[i].max_fan_speed > 100 {
                assert(!self.temperature_fan_config@[i as int].valid());
                return false;
            }
            i += 1;
        }
        true
    }
}

impl IloConfig {
    /// Every interval of every controller holds a percentage.
    pub open spec fn speeds_valid(self) -> bool {
        forall|t: int|
            0 <= t < self.targets@.len() ==> speeds_valid((#[trigger] self.targets@[t]).ranges())
    }

    /// Every explicit fan list of every controller is one-based.
    pub open spec fn fans_valid(self) -> bool {
        forall|t: int| 0 <= t < self.targets@.len() ==> (#[trigger] self.targets@[t]).target_fans.wf()
    }

    /// The configuration can be handed to the control logic.
    pub open spec fn valid(self) -> bool {
        self.speeds_valid() && self.fans_valid()
    }

    /// Checks the configuration. A speed above 100 percent is reported
    /// before a zero fan index, wherever the two stand.
    pub fn validate(&self) -> (r: Result<(), ConfigError>)
        ensures
            r is Ok <==> self.valid(),
            r == Err::<(), ConfigError>(ConfigError::FanSpeedOutOfRange) <==> !self.speeds_valid(),
            r == Err::<(), ConfigError>(ConfigError::ZeroFanIndex) <==> self.speeds_valid()
                && !self.fans_valid(),
            self.valid() ==> forall|t: int|
                0 <= t < self.targets@.len() ==> (#[trigger] self.targets@[t]).valid(),
    {
        let mut t: usize = 0;
        while t < self.targets.len()
            invariant
                t <= self.targets@.len(),
                forall|j: int| 0 <= j < t ==> speeds_valid((#[trigger] self.targets@[j]).ranges()),
            decreases self.targets@.len() - t,
        {
            if !self.targets[t].has_valid_speeds() {
                assert(!speeds_valid(self.targets@[t as int].ranges()));
                return Err(ConfigError::FanSpeedOutOfRange);
            }
            t += 1;
        }
        let mut u: usize = 0;
        while u < self.targets.len()
            invariant
                u <= self.targets@.len(),
                self.speeds_valid(),
                forall|j: int| 0 <= j < u ==> (#[trigger] self.targets@[j]).target_fans.wf(),
            decreases self.targets@.len() - u,
        {
            if !self.targets[u].target_fans.is_one_based() {
                assert(!self.targets@[u as int].target_fans.wf());
                return Err(ConfigError::ZeroFanIndex);
            }
            u += 1;
        }
        Ok(())
    }
}

impl ConfigError {
    /// A sentence for the operator.
    pub fn message(&self) -> (text: &'static str)
        ensures
            text@ == match *self {
                ConfigError::FanSpeedOutOfRange => "max_fan_speed must be between 0 and 100"@,
                ConfigError::ZeroFanIndex => "target fan numbers start at 1"@,
            },
    {
        match self {
            ConfigError::FanSpeedOutOfRange => "max_fan_speed must be between 0 and 100",
            ConfigError::ZeroFanIndex => "target fan numbers start at 1",
        }
    }
}

} // verus!
