//! A runner for batches of health-check scripts: parsing of the job and label
//! arguments, the shared job queue, the decisions of the script runner, the
//! report that the output side folds out of the lifecycle events, and the
//! text it renders.

pub mod labels;
pub mod laws;
pub mod pairs;
pub mod queue;
pub mod render;
pub mod report;
pub mod runner;
pub mod script;

pub use labels::{label_list, label_map, label_map_of};
pub use laws::JobRecord;
pub use pairs::{parse_label_pair, parse_title_path_pair};
pub use queue::{JobQueue, JobQueueView};
pub use render::{decimal_text, metric_lines, plain_line, summary_line};
pub use report::{Report, ReportView};
pub use runner::{
    completed_event, failure_output, finish_event, start_event, Event, EventView, RunOutput,
    RunOutputView,
};
pub use script::{Script, ScriptView};
