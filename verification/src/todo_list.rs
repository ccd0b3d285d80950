use vstd::prelude::*;
use vstd::std_specs::cmp::PartialEqSpecImpl;

verus! {

/// One piece of work and the time by which it is due.
#[derive(Debug)]
pub struct Todo {
    work: String,
    deadline: String,
}

/// The mathematical value of a [`Todo`].
pub struct TodoView {
    pub work: Seq<char>,
    pub deadline: Seq<char>,
}

impl View for Todo {
    type V = TodoView;

    closed spec fn view(&self) -> TodoView {
        TodoView { work: self.work@, deadline: self.deadline@ }
    }
}

impl Todo {
    /// An entry for the work `w`, due at `dl`.
    pub fn new(w: String, dl: String) -> (entry: Self)
        ensures
            entry@ == (TodoView { work: w@, deadline: dl@ }),
    {
        Self { work: w, deadline: dl }
    }

    /// What is to be done.
    pub fn work(&self) -> (work: &String)
        ensures
            work@ == self@.work,
    {
        &self.work
    }

    /// The time by which it is due.
    pub fn deadline(&self) -> (deadline: &String)
        ensures
            deadline@ == self@.deadline,
    {
        &self.deadline
    }
}

impl PartialEq for Todo {
    /// Two entries are equal where both the work and the deadline agree.
    fn eq(&self, other: &Self) -> (equal: bool) {
        self.work == other.work && self.deadline == other.deadline
    }
}

impl PartialEqSpecImpl for Todo {
    open spec fn obeys_eq_spec() -> bool {
        true
    }

    open spec fn eq_spec(&self, other: &Self) -> bool {
        self@ == other@
    }
}

impl Clone for Todo {
    fn clone(&self) -> (copy: Self)
        ensures
            copy == *self,
    {
        Self { work: self.work.clone(), deadline: self.deadline.clone() }
    }
}

/// A list of entries, in the order in which they were added.
#[derive(Debug)]
pub struct Contract {
    todo_list: Vec<Todo>,
}

impl View for Contract {
    type V = Seq<TodoView>;

    closed spec fn view(&self) -> Seq<TodoView> {
        self.todo_list@.map_values(|entry: Todo| entry@)
    }
}

/// Whether `at` is the first position of `list` that holds `entry`.
pub open spec fn is_first_match(list: Seq<TodoView>, entry: TodoView, at: int) -> bool {
    &&& 0 <= at < list.len()
    &&& list[at] == entry
    &&& forall|before: int| 0 <= before < at ==> list[before] != entry
}

impl Default for Contract {
    /// The empty list.
    fn default() -> (list: Self)
        ensures
            list@ == Seq::<TodoView>::empty(),
    {
        Contract { todo_list: Vec::new() }
    }
}

impl Contract {
    /// The empty list.
    pub fn new() -> (list: Self)
        ensures
            list@ == Seq::<TodoView>::empty(),
    {
        Self { todo_list: Vec::new() }
    }

    /// Returns a copy of the entries, in the order in which they were added.
    pub fn get_list(&self) -> (entries: Vec<Todo>)
        ensures
            entries@.map_values(|entry: Todo| entry@) == self@,
    {
        let mut entries: Vec<Todo> = Vec::new();
        let mut at: usize = 0;
        while at < self.todo_list.len()
            invariant
                at <= self.todo_list@.len(),
                entries@ == self.todo_list@.take(at as int),
            decreases self.todo_list@.len() - at,
        {
            entries.push(self.todo_list[at].clone());
            at += 1;
        }
        assert(entries@ == self.todo_list@);
        entries
    }

    /// Adds an entry for the work `w`, due at `dl`, at the end of the list.
    pub fn add(&mut self, w: String, dl: String)
        ensures
            final(self)@ == old(self)@.push(TodoView { work: w@, deadline: dl@ }),
    {
        let a = Todo::new(w, dl);
        self.todo_list.push(a);
    }

    /// Removes the first entry for the work `w` due at `dl` and returns the
    /// position it had. Where the list holds no such entry, it is left as it
    /// is and the result is `None`.
    pub fn delete(&mut self, w: String, dl: String) -> (removed: Option<usize>)
        ensures
            match removed {
                Some(at) => {
                    &&& is_first_match(old(self)@, TodoView { work: w@, deadline: dl@ }, at as int)
                    &&& final(self)@ == old(self)@.remove(at as int)
                },
                None => {
                    &&& !old(self)@.contains(TodoView { work: w@, deadline: dl@ })
                    &&& final(self)@ == old(self)@
                },
            },
    {
        let a = Todo::new(w, dl);
        let mut at: usize = 0;
        while at < self.todo_list.len()
            invariant
                at <= self.todo_list@.len(),
                *self == *old(self),
                a@ == (TodoView { work: w@, deadline: dl@ }),
                forall|before: int| 0 <= before < at ==> self@[before] != a@,
            decreases self.todo_list@.len() - at,
        {
            if self.todo_list[at] == a {
                self.todo_list.remove(at);
                assert(self@ =~= old(self)@.remove(at as int));
                return Some(at);
            }
            at += 1;
        }
        None
    }
}

} // verus!
