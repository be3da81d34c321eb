pub mod builder;
pub mod cron;
pub mod cron_date;
pub mod rule_unit;
pub mod rules;
pub mod ruleset;
pub mod scheduler;
pub mod utils;

pub use builder::ruleset;
pub use cron::Cron;
pub use cron_date::{LoolDate, TimeUnit, Weekday};
pub use rule_unit::{many, range, ranges, val, Rule};
pub use rules::{cron, once, recur, SchedulingRule};
pub use ruleset::RecurrenceRuleSet;
pub use scheduler::{get_next_run_time, ScheduledTask, Scheduler, TaskHandler, TaskState};
