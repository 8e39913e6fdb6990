//! The document of one month: what is asked of the template engine, and how
//! the rendered blocks make up the file.

use vstd::prelude::*;
use vstd::string::StringExecFns;
use crate::calendar::{iso_weekday, CalendarDate, DateView};
use crate::text::{decimal, push_decimal, push_zero_padded, zero_padded};
use crate::todos::{date_views, month_days, Todos};

verus! {

/// A year as a file name holds it: at least four characters, filled up with
/// zeros, the minus sign of a negative year being one of the four.
pub open spec fn year_text(year: int) -> Seq<char> {
    if year >= 0 {
        zero_padded(year as nat, 4)
    } else {
        seq!['-'] + zero_padded((-year) as nat, 3)
    }
}

/// Year and month in one word, such as `202402`: the year as `year_text`
/// gives it, then the month in at least two digits.
pub open spec fn year_month_text(year: int, month: int) -> Seq<char> {
    year_text(year) + zero_padded(month as nat, 2)
}

/// The name of the file of a month, such as `TODOS - 202402.md`.
pub open spec fn file_name_text(year: int, month: int) -> Seq<char> {
    "TODOS - "@ + year_month_text(year, month) + ".md"@
}

/// Year and month in one word, such as `202402`.
pub fn year_month(year: i32, month: u32) -> (text: String)
    ensures
        text@ == year_month_text(year as int, month as int),
{
    let mut text = String::new();
    if year >= 0 {
        push_zero_padded(&mut text, year as u32, 4);
    } else {
        proof {
            reveal_strlit("-");
        }
        text.append("-");
        let magnitude: i64 = -(year as i64);
        push_zero_padded(&mut text, magnitude as u32, 3);
    }
    push_zero_padded(&mut text, month, 2);
    assert(text@ =~= year_month_text(year as int, month as int));
    text
}

/// The name of the file of a month, such as `TODOS - 202402.md`.
pub fn file_name(year: i32, month: u32) -> (name: String)
    ensures
        name@ == file_name_text(year as int, month as int),
{
    let mut name = String::from_str("TODOS - ");
    name.append(year_month(year, month).as_str());
    name.append(".md");
    name
}

/// The name of the template of the header.
pub open spec fn header_template_text() -> Seq<char> {
    "header.md"@
}

/// The name of the template of a weekday: its number, then `.md`.
pub open spec fn weekday_template_text(weekday: int) -> Seq<char> {
    decimal(weekday as nat) + ".md"@
}

/// The name of the template of a weekday, such as `4.md` for Thursday.
pub fn weekday_template(weekday: u32) -> (name: String)
    ensures
        name@ == weekday_template_text(weekday as int),
{
    let mut name = String::new();
    push_decimal(&mut name, weekday);
    name.append(".md");
    assert(name@ =~= weekday_template_text(weekday as int));
    name
}

/// What is asked of the template engine for one block: the template to
/// render, and the one variable that it is given, by name and value.
pub struct RenderRequest {
    pub template: String,
    pub variable: String,
    pub value: String,
}

/// What a request is, as plain text.
pub ghost struct RequestView {
    pub template: Seq<char>,
    pub variable: Seq<char>,
    pub value: Seq<char>,
}

impl View for RenderRequest {
    type V = RequestView;

    open spec fn view(&self) -> RequestView {
        RequestView { template: self.template@, variable: self.variable@, value: self.value@ }
    }
}

/// The request for the header of a month: the header's template, with
/// `YYYYMM` set to year and month in one word.
pub open spec fn header_request_view(year: int, month: int) -> RequestView {
    RequestView {
        template: header_template_text(),
        variable: "YYYYMM"@,
        value: year_month_text(year, month),
    }
}

/// The request for the block of a day that falls on `weekday`: the template
/// of that weekday, with `YYYYMMDD` set to the date in one word.
pub open spec fn day_request_view(stamp: Seq<char>, weekday: int) -> RequestView {
    RequestView {
        template: weekday_template_text(weekday),
        variable: "YYYYMMDD"@,
        value: stamp,
    }
}

/// The request for the block of a day: the template of its weekday, with
/// `YYYYMMDD` set to the date in one word.
pub open spec fn date_request_view(date: DateView) -> RequestView {
    day_request_view(date.stamp(), iso_weekday(date.year, date.month, date.day))
}

/// All that is asked of the template engine for a month, in order: the
/// header, then the block of each day of the month.
pub open spec fn render_plan_view(year: int, month: int) -> Seq<RequestView> {
    seq![header_request_view(year, month)] + month_days(year, month).map_values(
        |date: DateView| date_request_view(date),
    )
}

/// What each request of a sequence is.
pub open spec fn request_views(requests: Seq<RenderRequest>) -> Seq<RequestView> {
    requests.map_values(|request: RenderRequest| request@)
}

impl RenderRequest {
    /// A second copy of this request.
    pub fn duplicate(&self) -> (copy: RenderRequest)
        ensures
            copy@ == self@,
    {
        RenderRequest {
            template: self.template.clone(),
            variable: self.variable.clone(),
            value: self.value.clone(),
        }
    }
}

/// The request for the header of the month of `todos`.
pub fn header_request(todos: &Todos) -> (request: RenderRequest)
    ensures
        request@ == header_request_view(todos.year as int, todos.month as int),
{
    RenderRequest {
        template: String::from_str("header.md"),
        variable: String::from_str("YYYYMM"),
        value: year_month(todos.year, todos.month),
    }
}

/// The request for the block of a day, given the weekday that the day falls
/// on and the date in one word.
pub fn weekday_request(weekday: u32, stamp: String) -> (request: RenderRequest)
    ensures
        request@ == day_request_view(stamp@, weekday as int),
{
    RenderRequest {
        template: weekday_template(weekday),
        variable: String::from_str("YYYYMMDD"),
        value: stamp,
    }
}

/// The request for the block of `date`.
pub fn day_request(date: &CalendarDate) -> (request: RenderRequest)
    ensures
        request@ == date_request_view(date@),
{
    weekday_request(date.weekday(), date.yyyymmdd())
}

/// All that is asked of the template engine for the month of `todos`, in
/// order: the header, then the block of each day.
pub fn render_plan(todos: &Todos) -> (plan: Vec<RenderRequest>)
    ensures
        request_views(plan@) == render_plan_view(todos.year as int, todos.month as int),
        plan@.len() == 1 + month_days(todos.year as int, todos.month as int).len(),
{
    let ghost days_view = month_days(todos.year as int, todos.month as int);
    let days = todos.get_days();
    let mut plan: Vec<RenderRequest> = Vec::new();
    plan.push(header_request(todos));
    let mut done: usize = 0;
    while done < days.len()
        invariant
            done <= days.len(),
            date_views(days@) == days_view,
            plan@.len() == 1 + done,
            plan@[0]@ == header_request_view(todos.year as int, todos.month as int),
            forall|i: int| 0 <= i < done ==> (#[trigger] plan@[1 + i])@ == date_request_view(days_view[i]),
        decreases days.len() - done,
    {
        assert(date_views(days@)[done as int] == days@[done as int]@);
        plan.push(day_request(&days[done]));
        done = done + 1;
    }
    assert(date_views(days@).len() == days@.len());
    assert(request_views(plan@) =~= render_plan_view(todos.year as int, todos.month as int)) by {
        assert forall|i: int| 0 <= i < plan@.len() implies request_views(plan@)[i]
            == render_plan_view(todos.year as int, todos.month as int)[i] by {
            if i > 0 {
                assert(plan@[1 + (i - 1)]@ == date_request_view(days_view[i - 1]));
            }
        }
    }
    plan
}

/// The text of each block of a sequence.
pub open spec fn block_texts(blocks: Seq<String>) -> Seq<Seq<char>> {
    blocks.map_values(|block: String| block@)
}

/// The text of a document: the header, then each block in order, each one
/// followed by a line feed.
pub open spec fn document_text(header: Seq<char>, blocks: Seq<Seq<char>>) -> Seq<char>
    decreases blocks.len(),
{
    if blocks.len() == 0 {
        header
    } else {
        document_text(header, blocks.drop_last()) + blocks.last() + seq!['\n']
    }
}

/// A rendered document: the rendered header, and the rendered block of each
/// day, in the order of the days.
pub struct RenderedDocument {
    pub header: String,
    pub blocks: Vec<String>,
}

impl RenderedDocument {
    /// The whole document as one text.
    pub fn text(&self) -> (text: String)
        ensures
            text@ == document_text(self.header@, block_texts(self.blocks@)),
    {
        let ghost blocks = block_texts(self.blocks@);
        let mut text = self.header.clone();
        let mut done: usize = 0;
        assert(blocks.take(0) =~= Seq::<Seq<char>>::empty());
        while done < self.blocks.len()
            invariant
                blocks == block_texts(self.blocks@),
                done <= self.blocks.len(),
                text@ == document_text(self.header@, blocks.take(done as int)),
            decreases self.blocks.len() - done,
        {
            proof {
                reveal_strlit("\n");
                assert(blocks.take(done + 1).drop_last() =~= blocks.take(done as int));
                assert(blocks.take(done + 1).last() == self.blocks@[done as int]@);
            }
            text.append(self.blocks[done].as_str());
            text.append("\n");
            done = done + 1;
        }
        assert(blocks.take(done as int) =~= blocks);
        text
    }
}

/// Assembly is deterministic: two rendered documents with the same header
/// text and the same block texts, in the same order, are the same text.
pub proof fn lemma_same_parts_same_text(first: RenderedDocument, second: RenderedDocument)
    requires
        first.header@ == second.header@,
        block_texts(first.blocks@) == block_texts(second.blocks@),
    ensures
        document_text(first.header@, block_texts(first.blocks@)) == document_text(
            second.header@,
            block_texts(second.blocks@),
        ),
{
}

/// Where the file goes depends on the request and the default directory
/// alone: two requests for the same month that name the same directory, or
/// none, give the same directory and the same file name.
pub proof fn lemma_same_request_same_place(
    first: Todos,
    second: Todos,
    default_dir: Option<String>,
)
    requires
        first.year == second.year,
        first.month == second.month,
        optional_text(first.path) == optional_text(second.path),
    ensures
        resolved_directory(optional_text(first.path), optional_text(default_dir))
            == resolved_directory(optional_text(second.path), optional_text(default_dir)),
        file_name_text(first.year as int, first.month as int) == file_name_text(
            second.year as int,
            second.month as int,
        ),
{
}

/// What is asked of the template engine depends on the year and the month
/// alone: two requests for the same month ask the same, whatever directory
/// each names.
pub proof fn lemma_same_month_same_plan(first: Todos, second: Todos)
    requires
        first.year == second.year,
        first.month == second.month,
    ensures
        render_plan_view(first.year as int, first.month as int) == render_plan_view(
            second.year as int,
            second.month as int,
        ),
{
}

/// The text of a directory that may be absent.
pub open spec fn optional_text(text: Option<String>) -> Option<Seq<char>> {
    match text {
        Some(t) => Some(t@),
        None => None,
    }
}

/// The directory that a file goes to: the one asked for, if any; else the
/// default one, if any; else the current directory, `.`.
pub open spec fn resolved_directory(
    asked: Option<Seq<char>>,
    default_dir: Option<Seq<char>>,
) -> Seq<char> {
    match asked {
        Some(directory) => directory,
        None => match default_dir {
            Some(directory) => directory,
            None => "."@,
        },
    }
}

/// The directory that a file goes to, given the directory asked for and the
/// default directory of the environment.
pub fn output_directory(asked: &Option<String>, default_dir: &Option<String>) -> (directory:
    String)
    ensures
        directory@ == resolved_directory(optional_text(*asked), optional_text(*default_dir)),
        asked matches Some(a) ==> directory@ == a@,
        asked.is_none() ==> (default_dir matches Some(d) ==> directory@ == d@),
        asked.is_none() && default_dir.is_none() ==> directory@ == "."@,
{
    match asked {
        Some(directory) => directory.clone(),
        None => match default_dir {
            Some(directory) => directory.clone(),
            None => String::from_str("."),
        },
    }
}

/// tera's `Tera`, the set of templates. It is carried through to the call
/// that renders; nothing is known of what it holds.
#[verifier::external_type_specification]
#[verifier::external_body]
pub struct ExTera(tera::Tera);

/// tera's `Error`. It is carried from the call that renders to the caller;
/// nothing is known of what it holds.
#[verifier::external_type_specification]
#[verifier::external_body]
pub struct ExTeraError(tera::Error);

/// Renders one block with tera: a fresh `Context`, the request's variable
/// put into it by `Context::insert`, and `Tera::render` of the request's
/// template. Nothing is claimed of what comes back: it depends on the
/// templates, and a template may read the environment. `insert` fails only
/// on a value that cannot be serialized, which a text is not.
#[verifier::external_body]
fn tera_render(templates: &tera::Tera, request: &RenderRequest) -> (rendered: Result<
    String,
    tera::Error,
>) {
    let mut context = tera::Context::new();
    context.insert(request.variable.as_str(), &request.value);
    templates.render(&request.template, &context)
}

/// Why a document could not be rendered: the request on which the template
/// engine failed, and its error.
pub struct RenderError {
    pub request: RenderRequest,
    pub cause: tera::Error,
}

impl RenderedDocument {
    /// The document after the header was asked for: one with the rendered
    /// header and no block yet, or the failure of `request`.
    pub fn begin(request: &RenderRequest, outcome: Result<String, tera::Error>) -> (next: Result<
        RenderedDocument,
        RenderError,
    >)
        ensures
            outcome matches Ok(header) ==> next matches Ok(document) && document.header@
                == header@ && document.blocks@.len() == 0,
            outcome matches Err(cause) ==> next matches Err(error) && error.request@ == request@
                && error.cause == cause,
    {
        match outcome {
            Ok(header) => Ok(RenderedDocument { header, blocks: Vec::new() }),
            Err(cause) => Err(RenderError { request: request.duplicate(), cause }),
        }
    }

    /// The document after one more block was asked for: the same header and
    /// blocks with the rendered block behind them, or the failure of
    /// `request`.
    pub fn with_block(self, request: &RenderRequest, outcome: Result<String, tera::Error>) -> (next:
        Result<RenderedDocument, RenderError>)
        ensures
            outcome matches Ok(block) ==> next matches Ok(document) && document.header@
                == self.header@ && block_texts(document.blocks@) == block_texts(
                self.blocks@,
            ).push(block@),
            outcome matches Err(cause) ==> next matches Err(error) && error.request@ == request@
                && error.cause == cause,
    {
        match outcome {
            Ok(block) => {
                let mut document = self;
                document.blocks.push(block);
                assert(block_texts(document.blocks@) =~= block_texts(self.blocks@).push(block@));
                Ok(document)
            },
            Err(cause) => Err(RenderError { request: request.duplicate(), cause }),
        }
    }
}

/// The file of one month: the directory that it goes to, its name in that
/// directory, and its contents.
pub struct TodosFile {
    pub directory: String,
    pub name: String,
    pub document: RenderedDocument,
}

/// Makes the file of the month of `todos` from the given templates: the
/// header first, then the block of each day in ascending order, each from the
/// template of its weekday. The first request that fails ends the work.
///
/// The directory is the one that `todos` asks for, else `default_dir`, else
/// the current directory.
pub fn create_todos_file(
    todos: &Todos,
    default_dir: &Option<String>,
    templates: &tera::Tera,
) -> (created: Result<TodosFile, RenderError>)
    ensures
        created matches Ok(file) ==> {
            &&& file.directory@ == resolved_directory(
                optional_text(todos.path),
                optional_text(*default_dir),
            )
            &&& file.name@ == file_name_text(todos.year as int, todos.month as int)
            &&& file.document.blocks@.len() == month_days(
                todos.year as int,
                todos.month as int,
            ).len()
        },
        created matches Err(error) ==> render_plan_view(
            todos.year as int,
            todos.month as int,
        ).contains(error.request@),
{
    let ghost plan_view = render_plan_view(todos.year as int, todos.month as int);
    let plan = render_plan(todos);
    assert(request_views(plan@)[0] == plan@[0]@);
    let mut document = match RenderedDocument::begin(&plan[0], tera_render(templates, &plan[0])) {
        Ok(document) => document,
        Err(error) => {
            return Err(error);
        },
    };
    let mut next: usize = 1;
    while next < plan.len()
        invariant
            1 <= next <= plan.len(),
            document.blocks@.len() == next - 1,
            request_views(plan@) == plan_view,
            plan_view == render_plan_view(todos.year as int, todos.month as int),
        decreases plan.len() - next,
    {
        assert(request_views(plan@)[next as int] == plan@[next as int]@);
        let ghost before = block_texts(document.blocks@);
        document =
        match document.with_block(&plan[next], tera_render(templates, &plan[next])) {
            Ok(document) => document,
            Err(error) => {
                return Err(error);
            },
        };
        assert(block_texts(document.blocks@).len() == before.len() + 1);
        next = next + 1;
    }
    Ok(
        TodosFile {
            directory: output_directory(&todos.path, default_dir),
            name: file_name(todos.year, todos.month),
            document,
        },
    )
}

} // verus!
