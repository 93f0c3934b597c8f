//! The creation of a cocktail as a sequence of statements, one at a time.
//!
//! The author is read first; then, under a fresh identifier and the current
//! time, the cocktail row is written; then, for each ingredient in input
//! order, its ingredient type is read and its row is written. The first
//! statement that fails ends the creation. [`step`] takes the state and the
//! answer to the last statement and gives the next statement, the created
//! cocktail, or the end of a failed creation; running the statements is left
//! to the caller.
use vstd::prelude::*;
use crate::clock::{utc_now, Timestamp};
use crate::database::{
    cocktail_from_rows, cocktail_row_of, echo_of, ingredient_of, ingredient_row_of,
    is_cocktail_from_rows, plan_new_cocktail_with, CocktailRow, IngredientRow, InsertedIngredient,
};
use crate::ids::{fresh_id, is_v4_uuid};
use crate::schema::types::{Cocktail, IngredientType, NewCocktail, User};

verus! {

/// A statement that the creation asks to run.
#[derive(Debug)]
pub enum Statement {
    /// `SELECT id, name FROM users WHERE id = user_id`.
    FetchUser { user_id: u128 },
    /// Insert the cocktail row, returning it.
    InsertCocktail(CocktailRow),
    /// `SELECT id, label FROM ingredient_types WHERE id = id`, at most one row.
    FetchIngredientType { id: Option<u128> },
    /// Insert the ingredient row, returning its label, amount and unit.
    InsertIngredient(IngredientRow),
}

/// The answer to the last statement.
#[derive(Debug)]
pub enum Answer {
    /// The author that was read.
    User(User),
    /// The cocktail row that the insert returned.
    CocktailInserted(CocktailRow),
    /// The ingredient type that was read, if any.
    IngredientTypeRead(Option<IngredientType>),
    /// What the insert of an ingredient returned.
    IngredientInserted(InsertedIngredient),
    /// The statement failed.
    Failed,
}

/// Where a creation stands: the answer it waits for, and what it has
/// gathered. `rows` are the ingredient rows still to be written, in order;
/// `parts` hold, per ingredient written so far, the returned row and the
/// ingredient type read for it.
#[derive(Debug)]
pub enum Creation {
    AwaitingUser { new: NewCocktail },
    AwaitingCocktail { author: User, rows: Vec<IngredientRow> },
    AwaitingType {
        author: User,
        returned: CocktailRow,
        rows: Vec<IngredientRow>,
        parts: Vec<(InsertedIngredient, Option<IngredientType>)>,
    },
    AwaitingIngredient {
        author: User,
        returned: CocktailRow,
        rows: Vec<IngredientRow>,
        parts: Vec<(InsertedIngredient, Option<IngredientType>)>,
        ingredient_type: Option<IngredientType>,
    },
}

/// What follows an answer.
#[derive(Debug)]
pub enum Next {
    /// Run the statement; the creation then stands as given.
    Run(Creation, Statement),
    /// The cocktail is created.
    Finished(Cocktail),
    /// The creation ends without a cocktail.
    Stopped,
}

/// After the ingredient rows `rows` still to be written, with the parts
/// gathered so far: the read of the next ingredient's type, or, where no row
/// is left, the cocktail built from the rows.
pub open spec fn continues_with(
    author: User,
    returned: CocktailRow,
    rows: Seq<IngredientRow>,
    parts: Seq<(InsertedIngredient, Option<IngredientType>)>,
    next: Next,
) -> bool {
    if rows.len() == 0 {
        next matches Next::Finished(c) && is_cocktail_from_rows(c, returned, author, parts)
    } else {
        next matches Next::Run(s, st) && {
            &&& s matches Creation::AwaitingType { author: a, returned: r, rows: rs, parts: ps } && {
                &&& a == author
                &&& r == returned
                &&& rs@ == rows
                &&& ps@ == parts
            }
            &&& st == Statement::FetchIngredientType { id: rows[0].ingredient_type_id }
        }
    }
}

/// `next` follows `state` on `answer`, where the cocktail, if its row is
/// planned now, gets the identifier `id` and is added at `date` (none where
/// the clock gave no time). A failed statement, or an answer to another
/// statement than the one asked, ends the creation.
pub open spec fn is_step(
    state: Creation,
    answer: Answer,
    id: u128,
    date: Option<Timestamp>,
    next: Next,
) -> bool {
    match state {
        Creation::AwaitingUser { new } => match answer {
            Answer::User(u) => match date {
                Some(d) => next matches Next::Run(s, st) && {
                    &&& s matches Creation::AwaitingCocktail { author, rows } && {
                        &&& author == u
                        &&& rows@.len() == new.ingredients@.len()
                        &&& forall|i: int|
                            0 <= i < rows@.len() ==> #[trigger] rows@[i] == ingredient_row_of(
                                new.ingredients@[i],
                                id,
                            )
                    }
                    &&& st == Statement::InsertCocktail(cocktail_row_of(new, id, d))
                },
                None => next is Stopped,
            },
            _ => next is Stopped,
        },
        Creation::AwaitingCocktail { author, rows } => match answer {
            Answer::CocktailInserted(returned) => continues_with(
                author,
                returned,
                rows@,
                Seq::empty(),
                next,
            ),
            _ => next is Stopped,
        },
        Creation::AwaitingType { author, returned, rows, parts } => match answer {
            Answer::IngredientTypeRead(t) => if rows@.len() == 0 {
                next is Stopped
            } else {
                next matches Next::Run(s, st) && {
                    &&& s matches Creation::AwaitingIngredient {
                        author: a,
                        returned: r,
                        rows: rs,
                        parts: ps,
                        ingredient_type: it,
                    } && {
                        &&& a == author
                        &&& r == returned
                        &&& rs@ == rows@.drop_first()
                        &&& ps@ == parts@
                        &&& it == t
                    }
                    &&& st == Statement::InsertIngredient(rows@[0])
                }
            },
            _ => next is Stopped,
        },
        Creation::AwaitingIngredient { author, returned, rows, parts, ingredient_type } => match answer {
            Answer::IngredientInserted(x) => continues_with(
                author,
                returned,
                rows@,
                parts@.push((x, ingredient_type)),
                next,
            ),
            _ => next is Stopped,
        },
    }
}

impl Creation {
    /// The start of the creation of `new`: read its author.
    pub fn start(new: NewCocktail) -> (r: (Creation, Statement))
        ensures
            r.0 == (Creation::AwaitingUser { new }),
            r.1 == (Statement::FetchUser { user_id: new.author_id }),
    {
        let user_id = new.author_id;
        (Creation::AwaitingUser { new }, Statement::FetchUser { user_id })
    }
}

/// After the ingredient rows `rows`, with the parts gathered so far.
fn continue_with(
    author: User,
    returned: CocktailRow,
    rows: Vec<IngredientRow>,
    parts: Vec<(InsertedIngredient, Option<IngredientType>)>,
) -> (r: Next)
    ensures
        continues_with(author, returned, rows@, parts@, r),
{
    if rows.len() == 0 {
        Next::Finished(cocktail_from_rows(returned, author, parts))
    } else {
        let id = rows[0].ingredient_type_id;
        Next::Run(
            Creation::AwaitingType { author, returned, rows, parts },
            Statement::FetchIngredientType { id },
        )
    }
}

/// The step from `state` on `answer`, where a cocktail row planned now gets
/// the identifier `id` and is added at `date`.
pub fn step_with(state: Creation, answer: Answer, id: u128, date: Option<Timestamp>) -> (r: Next)
    ensures
        is_step(state, answer, id, date, r),
{
    match state {
        Creation::AwaitingUser { new } => match answer {
            Answer::User(u) => match date {
                Some(d) => {
                    let plan = plan_new_cocktail_with(new, id, d);
                    Next::Run(
                        Creation::AwaitingCocktail { author: u, rows: plan.ingredients },
                        Statement::InsertCocktail(plan.cocktail),
                    )
                },
                None => Next::Stopped,
            },
            _ => Next::Stopped,
        },
        Creation::AwaitingCocktail { author, rows } => match answer {
            Answer::CocktailInserted(returned) => {
                let parts: Vec<(InsertedIngredient, Option<IngredientType>)> = Vec::new();
                let r = continue_with(author, returned, rows, parts);
                assert(parts@ =~= Seq::<(InsertedIngredient, Option<IngredientType>)>::empty());
                r
            },
            _ => Next::Stopped,
        },
        Creation::AwaitingType { author, returned, rows, parts } => match answer {
            Answer::IngredientTypeRead(t) => {
                if rows.len() == 0 {
                    Next::Stopped
                } else {
                    let mut rest = rows;
                    let row = rest.remove(0);
                    assert(rest@ =~= rows@.drop_first());
                    Next::Run(
                        Creation::AwaitingIngredient {
                            author,
                            returned,
                            rows: rest,
                            parts,
                            ingredient_type: t,
                        },
                        Statement::InsertIngredient(row),
                    )
                }
            },
            _ => Next::Stopped,
        },
        Creation::AwaitingIngredient { author, returned, rows, parts, ingredient_type } => match answer {
            Answer::IngredientInserted(x) => {
                let mut gathered = parts;
                gathered.push((x, ingredient_type));
                continue_with(author, returned, rows, gathered)
            },
            _ => Next::Stopped,
        },
    }
}

/// Whether the step from `state` on `answer` plans the cocktail row: the
/// answer is the author that the creation waits for.
pub open spec fn plans_row(state: Creation, answer: Answer) -> bool {
    state is AwaitingUser && answer is User
}

/// The step from `state` on `answer`. Where the answer is the author, the
/// cocktail row is planned now, under a fresh random version-4 identifier
/// and the current time; where the clock gives no UTC time, the creation
/// ends. No other step draws an identifier or reads the clock.
pub fn step(state: Creation, answer: Answer) -> (r: Next)
    ensures
        exists|id: u128, date: Option<Timestamp>|
            {
                &&& is_step(state, answer, id, date, r)
                &&& plans_row(state, answer) ==> is_v4_uuid(id) && (date matches Some(d) ==> d.secs
                    >= 0 && d.nanos < 1_000_000_000)
            },
{
    let plans_now = match (&state, &answer) {
        (Creation::AwaitingUser { .. }, Answer::User(_)) => true,
        _ => false,
    };
    if plans_now {
        let id = fresh_id();
        let date = utc_now();
        step_with(state, answer, id, date)
    } else {
        step_with(state, answer, 0, None)
    }
}

/// The first failing statement ends the creation: whatever the state, a
/// failed statement is followed by no other statement and no cocktail.
pub proof fn lemma_failure_stops(state: Creation, id: u128, date: Option<Timestamp>, next: Next)
    requires
        is_step(state, Answer::Failed, id, date, next),
    ensures
        next is Stopped,
{
}

/// The cocktail row written after the author is read carries the input: the
/// identifier and time planned now, the input's name and source, and the
/// input's author, and the creation goes on with the author that was read.
pub proof fn lemma_cocktail_row_after_author(
    new: NewCocktail,
    u: User,
    id: u128,
    d: Timestamp,
    next: Next,
)
    requires
        is_step(Creation::AwaitingUser { new }, Answer::User(u), id, Some(d), next),
    ensures
        next matches Next::Run(s, st) && {
            &&& st matches Statement::InsertCocktail(row) && {
                &&& row.id == id
                &&& row.name == new.name
                &&& row.author_id == new.author_id
                &&& row.source == new.source
                &&& row.date_added == d
            }
            &&& s matches Creation::AwaitingCocktail { author, rows } && {
                &&& author == u
                &&& rows@.len() == new.ingredients@.len()
            }
        },
{
}

/// Each ingredient is written right after its type is read, under the row
/// planned for it: from waiting for a type, with a type read, the next
/// statement writes the first of the rows still to be written, and the rest
/// wait.
pub proof fn lemma_ingredient_written_after_its_type(
    author: User,
    returned: CocktailRow,
    rows: Vec<IngredientRow>,
    parts: Vec<(InsertedIngredient, Option<IngredientType>)>,
    t: Option<IngredientType>,
    id: u128,
    date: Option<Timestamp>,
    next: Next,
)
    requires
        rows@.len() > 0,
        is_step(
            Creation::AwaitingType { author, returned, rows, parts },
            Answer::IngredientTypeRead(t),
            id,
            date,
            next,
        ),
    ensures
        next matches Next::Run(s, st) && {
            &&& st == Statement::InsertIngredient(rows@[0])
            &&& s matches Creation::AwaitingIngredient { rows: rs, .. } && rs@ == rows@.drop_first()
        },
{
}

/// The ingredient rows that the creation of `new` under `id` writes, in
/// order.
pub open spec fn planned_rows(new: NewCocktail, id: u128) -> Seq<IngredientRow> {
    Seq::new(new.ingredients@.len(), |i: int| ingredient_row_of(new.ingredients@[i], id))
}

/// The statement that the answer of step `k` of a run answers: the read of
/// the author first, then the statement each step asked for.
pub open spec fn statement_at(new: NewCocktail, nexts: Seq<Next>, k: int) -> Statement {
    if k == 0 {
        Statement::FetchUser { user_id: new.author_id }
    } else {
        match nexts[k - 1] {
            Next::Run(_, st) => st,
            _ => Statement::FetchUser { user_id: new.author_id },
        }
    }
}

/// `steps` is a run of the creation of `new`: it starts waiting for the
/// author, each step follows its state on its answer (planning under `id`
/// at `date`), and each state but the first is the one the step before it
/// gave.
pub open spec fn is_run(
    new: NewCocktail,
    id: u128,
    date: Option<Timestamp>,
    states: Seq<Creation>,
    answers: Seq<Answer>,
    nexts: Seq<Next>,
) -> bool {
    &&& states.len() > 0
    &&& answers.len() == states.len()
    &&& nexts.len() == states.len()
    &&& states[0] == (Creation::AwaitingUser { new })
    &&& forall|k: int|
        0 <= k < states.len() ==> #[trigger] is_step(states[k], answers[k], id, date, nexts[k])
    &&& forall|k: int|
        0 <= k < states.len() - 1 ==> (#[trigger] nexts[k] matches Next::Run(s, _) && states[k + 1]
            == s)
}

/// `answer` answers `statement` as a database does that hands back what was
/// written, and knows `author` as the author.
pub open spec fn echoes(statement: Statement, answer: Answer, author: User) -> bool {
    match statement {
        Statement::FetchUser { .. } => answer == Answer::User(author),
        Statement::InsertCocktail(row) => answer == Answer::CocktailInserted(row),
        Statement::FetchIngredientType { .. } => answer is IngredientTypeRead,
        Statement::InsertIngredient(row) => answer == Answer::IngredientInserted(echo_of(row)),
    }
}

/// The parts gathered so far hand back the first planned rows as written.
pub open spec fn parts_echo(
    parts: Seq<(InsertedIngredient, Option<IngredientType>)>,
    planned: Seq<IngredientRow>,
) -> bool {
    &&& parts.len() <= planned.len()
    &&& forall|i: int| 0 <= i < parts.len() ==> #[trigger] parts[i].0 == echo_of(planned[i])
}

/// Where a run against a database that hands back what was written stands,
/// with the statement it waits on.
pub open spec fn run_inv(
    new: NewCocktail,
    id: u128,
    d: Timestamp,
    author: User,
    state: Creation,
    statement: Statement,
) -> bool {
    let planned = planned_rows(new, id);
    match state {
        Creation::AwaitingUser { new: n } => n == new && statement == (Statement::FetchUser {
            user_id: new.author_id,
        }),
        Creation::AwaitingCocktail { author: a, rows } => {
            &&& a == author
            &&& rows@ == planned
            &&& statement == Statement::InsertCocktail(cocktail_row_of(new, id, d))
        },
        Creation::AwaitingType { author: a, returned, rows, parts } => {
            &&& a == author
            &&& returned == cocktail_row_of(new, id, d)
            &&& parts@.len() < planned.len()
            &&& parts_echo(parts@, planned)
            &&& rows@ == planned.skip(parts@.len() as int)
            &&& statement == (Statement::FetchIngredientType {
                id: planned[parts@.len() as int].ingredient_type_id,
            })
        },
        Creation::AwaitingIngredient { author: a, returned, rows, parts, .. } => {
            &&& a == author
            &&& returned == cocktail_row_of(new, id, d)
            &&& parts@.len() < planned.len()
            &&& parts_echo(parts@, planned)
            &&& rows@ == planned.skip(parts@.len() + 1int)
            &&& statement == Statement::InsertIngredient(planned[parts@.len() as int])
        },
    }
}

/// `c` reads back `new` as created under `id` at `d` by `author`: the
/// input's name, source and ingredients (label, amount and unit, in order).
pub open spec fn reads_back(new: NewCocktail, id: u128, d: Timestamp, author: User, c: Cocktail) -> bool {
    &&& c.id == id
    &&& c.name == new.name
    &&& c.author == author
    &&& c.source == new.source
    &&& c.date_added == d
    &&& c.ingredients@.len() == new.ingredients@.len()
    &&& forall|i: int|
        0 <= i < new.ingredients@.len() ==> {
            &&& #[trigger] c.ingredients@[i].label == new.ingredients@[i].label
            &&& c.ingredients@[i].amount == new.ingredients@[i].amount
            &&& c.ingredients@[i].unit == new.ingredients@[i].unit
        }
}

/// The cocktail built at the end, from gathered parts that hand back every
/// planned row as written, reads back the input.
proof fn lemma_finished_reads_back(
    new: NewCocktail,
    id: u128,
    d: Timestamp,
    author: User,
    parts: Seq<(InsertedIngredient, Option<IngredientType>)>,
    c: Cocktail,
)
    requires
        parts.len() == planned_rows(new, id).len(),
        parts_echo(parts, planned_rows(new, id)),
        is_cocktail_from_rows(c, cocktail_row_of(new, id, d), author, parts),
    ensures
        reads_back(new, id, d, author, c),
{
    let planned = planned_rows(new, id);
    assert forall|i: int| 0 <= i < new.ingredients@.len() implies {
        &&& #[trigger] c.ingredients@[i].label == new.ingredients@[i].label
        &&& c.ingredients@[i].amount == new.ingredients@[i].amount
        &&& c.ingredients@[i].unit == new.ingredients@[i].unit
    } by {
        assert(c.ingredients@[i] == ingredient_of(parts[i].0, parts[i].1));
        assert(parts[i].0 == echo_of(planned[i]));
        assert(planned[i] == ingredient_row_of(new.ingredients@[i], id));
    }
}

/// One step of a run against a database that hands back what was written
/// keeps [`run_inv`], and a cocktail it gives reads back the input.
proof fn lemma_run_step(
    new: NewCocktail,
    id: u128,
    d: Timestamp,
    author: User,
    state: Creation,
    statement: Statement,
    answer: Answer,
    next: Next,
)
    requires
        run_inv(new, id, d, author, state, statement),
        echoes(statement, answer, author),
        is_step(state, answer, id, Some(d), next),
    ensures
        next matches Next::Run(s, st) ==> run_inv(new, id, d, author, s, st),
        next matches Next::Finished(c) ==> reads_back(new, id, d, author, c),
{
    let planned = planned_rows(new, id);
    match state {
        Creation::AwaitingUser { new: n } => {
            if let Next::Run(s, st) = next {
                if let Creation::AwaitingCocktail { author: a, rows } = s {
                    assert(rows@ =~= planned);
                }
            }
        },
        Creation::AwaitingCocktail { author: a, rows } => {
            assert(planned.skip(0) =~= planned);
            if let Next::Finished(c) = next {
                lemma_finished_reads_back(new, id, d, author, Seq::empty(), c);
            }
        },
        Creation::AwaitingType { author: a, returned, rows, parts } => {
            if let Next::Run(s, st) = next {
                assert(rows@.drop_first() =~= planned.skip(parts@.len() + 1int));
                assert(rows@[0] == planned[parts@.len() as int]);
            }
        },
        Creation::AwaitingIngredient { author: a, returned, rows, parts, ingredient_type } => {
            let j = parts@.len();
            if let Answer::IngredientInserted(x) = answer {
                let gathered = parts@.push((x, ingredient_type));
                assert(parts_echo(gathered, planned)) by {
                    assert forall|i: int| 0 <= i < gathered.len() implies #[trigger] gathered[i].0
                        == echo_of(planned[i]) by {
                        if i < j {
                            assert(gathered[i] == parts@[i]);
                        }
                    }
                }
                if rows@.len() == 0 {
                    if let Next::Finished(c) = next {
                        lemma_finished_reads_back(new, id, d, author, gathered, c);
                    }
                } else {
                    if let Next::Run(s, st) = next {
                        assert(rows@ =~= planned.skip(gathered.len() as int));
                        assert(rows@[0] == planned[gathered.len() as int]);
                    }
                }
            }
        },
    }
}

/// Every state of a run against a database that hands back what was
/// written, with the statement it waits on, satisfies [`run_inv`].
proof fn lemma_run_inv(
    new: NewCocktail,
    id: u128,
    d: Timestamp,
    author: User,
    states: Seq<Creation>,
    answers: Seq<Answer>,
    nexts: Seq<Next>,
    k: int,
)
    requires
        is_run(new, id, Some(d), states, answers, nexts),
        forall|j: int|
            0 <= j < answers.len() ==> echoes(#[trigger] statement_at(new, nexts, j), answers[j], author),
        0 <= k < states.len(),
    ensures
        run_inv(new, id, d, author, states[k], statement_at(new, nexts, k)),
    decreases k,
{
    if k > 0 {
        lemma_run_inv(new, id, d, author, states, answers, nexts, k - 1);
        assert(is_step(states[k - 1], answers[k - 1], id, Some(d), nexts[k - 1]));
        assert(echoes(statement_at(new, nexts, k - 1), answers[k - 1], author));
        lemma_run_step(
            new,
            id,
            d,
            author,
            states[k - 1],
            statement_at(new, nexts, k - 1),
            answers[k - 1],
            nexts[k - 1],
        );
        assert(nexts[k - 1] matches Next::Run(s, _) && states[k] == s);
    }
}

/// A whole creation reads back what was asked for: a run that starts from
/// `new`, plans its cocktail under `id` at `d`, is answered by a database
/// that hands back what was written and knows `author`, and ends with a
/// cocktail, ends with one that has the identifier `id`, the time `d`, the
/// author, the input's name and source, and one ingredient per input
/// ingredient, in order, with its label, amount and unit.
pub proof fn lemma_creation_reads_back(
    new: NewCocktail,
    id: u128,
    d: Timestamp,
    author: User,
    states: Seq<Creation>,
    answers: Seq<Answer>,
    nexts: Seq<Next>,
    c: Cocktail,
)
    requires
        is_run(new, id, Some(d), states, answers, nexts),
        forall|j: int|
            0 <= j < answers.len() ==> echoes(#[trigger] statement_at(new, nexts, j), answers[j], author),
        nexts.last() == Next::Finished(c),
    ensures
        reads_back(new, id, d, author, c),
{
    let k = states.len() - 1;
    lemma_run_inv(new, id, d, author, states, answers, nexts, k);
    assert(is_step(states[k], answers[k], id, Some(d), nexts[k]));
    assert(echoes(statement_at(new, nexts, k), answers[k], author));
    lemma_run_step(new, id, d, author, states[k], statement_at(new, nexts, k), answers[k], nexts[k]);
}

} // verus!
