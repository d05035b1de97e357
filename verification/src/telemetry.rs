use vstd::prelude::*;

verus! {

/// The project's main language and its share of the lines: the share with
/// one decimal (`12.5`) and rounded (`13`), and the active cells of its
/// eight-cell gauge.
pub struct LanguageShare {
    pub name: String,
    pub percent_tenths: String,
    pub percent_whole: String,
    pub cells: usize,
}

/// What the project scan found.
pub struct ProjectTelemetry {
    pub total_lines: u64,
    pub top_language: Option<LanguageShare>,
    /// The coverage report's summary, empty when there is none.
    pub coverage_info: String,
}

impl Default for ProjectTelemetry {
    fn default() -> (r: Self)
        ensures
            r.total_lines == 0,
            r.top_language is None,
            r.coverage_info@ == Seq::<char>::empty(),
    {
        ProjectTelemetry { total_lines: 0, top_language: None, coverage_info: String::new() }
    }
}

} // verus!
