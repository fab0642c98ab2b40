//! Reading the detail of an act of the Diário da República (DR): the body of the detail
//! request, the reading of the API's answer, and the Markdown, JSON and table forms of an act.

use vstd::prelude::*;

pub mod body;
pub mod date;
pub mod detail;
pub mod json;
pub mod render;
pub mod text;
