//! The list of todos: one line for each, all of one width.

use unicode_width::UnicodeWidthStr;
use vstd::prelude::*;

verus! {

/// One thing to do.
#[derive(Debug)]
pub struct Todo {
    pub id: u32,
    pub title: &'static str,
    pub is_completed: bool,
}

/// A `Todo` as mathematical values.
pub struct TodoView {
    pub id: u32,
    pub title: Seq<char>,
    pub is_completed: bool,
}

impl View for Todo {
    type V = TodoView;

    open spec fn view(&self) -> TodoView {
        TodoView { id: self.id, title: self.title@, is_completed: self.is_completed }
    }
}

/// One line of the list: its text, and whether it is crossed out.
#[derive(Debug)]
pub struct TodoLine {
    pub text: String,
    pub crossed_out: bool,
}

/// A `TodoLine` as mathematical values.
pub struct TodoLineView {
    pub text: Seq<char>,
    pub crossed_out: bool,
}

impl View for TodoLine {
    type V = TodoLineView;

    open spec fn view(&self) -> TodoLineView {
        TodoLineView { text: self.text@, crossed_out: self.crossed_out }
    }
}

/// The number of terminal columns that `unicode_width` gives the text `s`.
pub uninterp spec fn display_width(s: Seq<char>) -> nat;

/// `unicode_width::UnicodeWidthStr::width`: the result is the number of
/// columns that `display_width` names. Nothing else is claimed of it.
#[verifier::external_body]
fn str_width(s: &str) -> (w: usize)
    ensures
        w as nat == display_width(s@),
{
    s.width()
}

/// `s` with spaces behind it up to `width` characters; `s` itself where it
/// has that many.
pub open spec fn padded(s: Seq<char>, width: nat) -> Seq<char> {
    if s.len() >= width {
        s
    } else {
        s + Seq::new((width - s.len()) as nat, |i: int| ' ')
    }
}

/// The largest of `widths`, zero where there is none.
pub open spec fn largest(widths: Seq<nat>) -> nat
    decreases widths.len(),
{
    if widths.len() == 0 {
        0
    } else if widths.last() > largest(widths.drop_last()) {
        widths.last()
    } else {
        largest(widths.drop_last())
    }
}

/// The todos as mathematical values.
pub open spec fn todo_views(todos: Seq<Todo>) -> Seq<TodoView> {
    todos.map_values(|t: Todo| t@)
}

/// The lines as mathematical values.
pub open spec fn todo_line_views(lines: Seq<TodoLine>) -> Seq<TodoLineView> {
    lines.map_values(|l: TodoLine| l@)
}

/// The lines of `todos` where the widest title takes `width` columns: each
/// title padded to `width` characters, crossed out where the todo is done.
pub open spec fn lines_of_width(todos: Seq<TodoView>, width: nat) -> Seq<TodoLineView> {
    todos.map_values(
        |t: TodoView| TodoLineView { text: padded(t.title, width), crossed_out: t.is_completed },
    )
}

/// The lines of `todos`.
pub open spec fn lines_of(todos: Seq<TodoView>) -> Seq<TodoLineView> {
    lines_of_width(todos, largest(todos.map_values(|t: TodoView| display_width(t.title))))
}

/// The todos that the list shows.
pub open spec fn todos_spec() -> Seq<TodoView> {
    seq![
        TodoView { id: 1, title: "Hello World!"@, is_completed: false },
        TodoView { id: 1, title: "Already completed"@, is_completed: true },
    ]
}

/// The todos that the list shows.
pub fn todos() -> (all: Vec<Todo>)
    ensures
        todo_views(all@) == todos_spec(),
{
    let mut all: Vec<Todo> = Vec::new();
    all.push(Todo { id: 1, title: "Hello World!", is_completed: false });
    all.push(Todo { id: 1, title: "Already completed", is_completed: true });
    proof {
        assert(todo_views(all@) =~= todos_spec());
    }
    all
}

/// Pads `s` with spaces up to `width` characters.
pub fn pad_right(s: &str, width: usize) -> (r: String)
    ensures
        r@ == padded(s@, width as nat),
{
    let mut r = String::from_str(s);
    let len = s.unicode_len();
    if len >= width {
        return r;
    }
    let missing = width - len;
    let mut i: usize = 0;
    while i < missing
        invariant
            i <= missing,
            r@ == s@ + Seq::new(i as nat, |k: int| ' '),
        decreases missing - i,
    {
        r.push(' ');
        proof {
            assert(r@ =~= s@ + Seq::new((i + 1) as nat, |k: int| ' '));
        }
        i += 1;
    }
    r
}

/// The lines of `todos`, given the number of columns `width` of the widest
/// title.
pub fn lines_with_width(todos: &Vec<Todo>, width: usize) -> (lines: Vec<TodoLine>)
    ensures
        todo_line_views(lines@) == lines_of_width(todo_views(todos@), width as nat),
{
    let mut lines: Vec<TodoLine> = Vec::new();
    let mut i: usize = 0;
    while i < todos.len()
        invariant
            i <= todos.len(),
            lines.len() == i,
            todo_line_views(lines@) == lines_of_width(todo_views(todos@), width as nat).take(
                i as int,
            ),
        decreases todos.len() - i,
    {
        let line = TodoLine {
            text: pad_right(todos[i].title, width),
            crossed_out: todos[i].is_completed,
        };
        proof {
            let all = lines_of_width(todo_views(todos@), width as nat);
            let before = todo_line_views(lines@);
            let after = todo_line_views(lines@.push(line));
            assert forall|k: int| 0 <= k < after.len() implies after[k] == all.take(i + 1)[k] by {
                if k < i {
                    assert(after[k] == before[k]);
                    assert(before[k] == all.take(i as int)[k]);
                }
            }
            assert(after =~= all.take(i + 1));
        }
        lines.push(line);
        i += 1;
    }
    proof {
        let all = lines_of_width(todo_views(todos@), width as nat);
        assert(all.take(i as int) =~= all);
    }
    lines
}

/// The number of columns of the widest title of `todos`.
pub fn widest_title(todos: &Vec<Todo>) -> (width: usize)
    ensures
        width as nat == largest(
            todo_views(todos@).map_values(|t: TodoView| display_width(t.title)),
        ),
{
    let ghost widths = todo_views(todos@).map_values(|t: TodoView| display_width(t.title));
    let mut width: usize = 0;
    let mut i: usize = 0;
    while i < todos.len()
        invariant
            i <= todos.len(),
            widths == todo_views(todos@).map_values(|t: TodoView| display_width(t.title)),
            width as nat == largest(widths.take(i as int)),
        decreases todos.len() - i,
    {
        let w = str_width(todos[i].title);
        proof {
            assert(widths.take(i + 1).drop_last() =~= widths.take(i as int));
            assert(widths.take(i + 1).last() == display_width(todos@[i as int].title@));
        }
        if w > width {
            width = w;
        }
        i += 1;
    }
    proof {
        assert(widths.take(i as int) =~= widths);
    }
    width
}

/// The lines of `todos`: every title padded to the width of the widest.
pub fn todo_lines(todos: &Vec<Todo>) -> (lines: Vec<TodoLine>)
    ensures
        todo_line_views(lines@) == lines_of(todo_views(todos@)),
{
    let width = widest_title(todos);
    lines_with_width(todos, width)
}

/// The list of todos, with the index of the selected line.
#[derive(Debug, Copy, Clone, PartialEq, Eq, Structural)]
pub struct TodosLister {
    selected_index: usize,
}

impl Default for TodosLister {
    fn default() -> (lister: TodosLister)
        ensures
            lister.selected() == 0,
    {
        TodosLister { selected_index: 0 }
    }
}

impl TodosLister {
    /// The index of the selected line.
    pub closed spec fn selected(self) -> usize {
        self.selected_index
    }

    /// A list with the line `selected_index` selected.
    pub fn new(selected_index: usize) -> (lister: TodosLister)
        ensures
            lister.selected() == selected_index,
    {
        TodosLister { selected_index }
    }

    /// The index of the selected line.
    pub fn selected_index(&self) -> (i: usize)
        ensures
            i == self.selected(),
    {
        self.selected_index
    }

    /// The lines of the list.
    pub fn todos_to_list(&self) -> (lines: Vec<TodoLine>)
        ensures
            todo_line_views(lines@) == lines_of(todos_spec()),
    {
        let all = todos();
        todo_lines(&all)
    }
}

} // verus!
