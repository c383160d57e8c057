//! Console core for looking up program, part, sheet and material status:
//! an editable input line, its history with prefix carry-over, the input
//! state machine, the identifier classifier and the result table model,
//! with the record types and export-file formats that go with them.

pub mod buffer;
pub mod dataset;
pub mod db;
pub mod input;
pub mod jobshipment;
pub mod logging;
pub mod program;
pub mod query;
pub mod table;
pub mod text;
pub mod wbs;

pub use buffer::{InputBuffer, SeekFrom};
pub use dataset::{file_contents, Dataset, SapConsumptionConfig};
pub use db::{row_to_string, DbConnParams};
pub use input::{InputEvent, InputMode, KeyCode, KeyEvent, KeyEventKind, Modifiers, ProgramInputHandler, Step, UiRequest};
pub use jobshipment::{JobShipment, JobShipmentParseError};
pub use program::{Cell, CellColor, Program, ProgramRecord, ProgramState, RecordError, Sheet, Timestamp, HEADER};
pub use query::{Query, QueryKind};
pub use table::{lookup_response, DisplayUpdate, LookupOutcome, Notice, RenderAction, TableModel};
pub use wbs::Wbs;
