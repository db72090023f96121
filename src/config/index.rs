//! The index of lessons, in the order they are taken.
use vstd::prelude::*;
use vstd::string::*;

verus! {

/// A lesson in the index: the file it is read from, and its title.
#[derive(Debug, Clone, Default)]
pub struct IndexRecord {
    pub file: String,
    pub title: String,
}

impl IndexRecord {
    /// The record as a list shows it: its title.
    pub fn to_string(&self) -> (r: String)
        ensures
            r@ == self.title@,
    {
        self.title.clone()
    }
}

/// The lessons, in order.
#[derive(Debug, Clone, Default)]
pub struct Index {
    pub lessons: Vec<IndexRecord>,
}

impl Index {
    /// Whether `i` is the first position whose lesson is read from `file`.
    pub open spec fn first_with_file(&self, file: Seq<char>, i: int) -> bool {
        &&& 0 <= i < self.lessons@.len()
        &&& self.lessons@[i].file@ == file
        &&& forall|j: int| 0 <= j < i ==> self.lessons@[j].file@ != file
    }

    /// The file of the lesson after the first one read from `file`, if there
    /// is such a lesson.
    pub open spec fn lesson_after(&self, file: Seq<char>) -> Option<Seq<char>> {
        if exists|i: int| self.first_with_file(file, i) {
            let i = choose|i: int| self.first_with_file(file, i);
            if i + 1 < self.lessons@.len() {
                Some(self.lessons@[i + 1].file@)
            } else {
                None
            }
        } else {
            None
        }
    }

    /// The file of the lesson that follows the first one read from `current`;
    /// `None` where that is the last lesson or `current` is not in the index.
    pub fn next_lesson(&self, current: &str) -> (r: Option<String>)
        ensures
            match r {
                Some(next) => self.lesson_after(current@) == Some(next@),
                None => self.lesson_after(current@) is None,
            },
    {
        let wanted = String::from_str(current);
        let mut i: usize = 0;
        while i < self.lessons.len()
            invariant
                i <= self.lessons@.len(),
                wanted@ == current@,
                forall|j: int| 0 <= j < i ==> self.lessons@[j].file@ != current@,
            decreases self.lessons@.len() - i,
        {
            if self.lessons[i].file == wanted {
                assert(self.first_with_file(current@, i as int));
                proof {
                    let k = choose|k: int| self.first_with_file(current@, k);
                    assert(k == i) by {
                        if k < i {
                            assert(self.lessons@[k].file@ != current@);
                        } else if k > i {
                            assert(self.lessons@[i as int].file@ != current@);
                        }
                    }
                }
                if i + 1 < self.lessons.len() {
                    return Some(self.lessons[i + 1].file.clone());
                } else {
                    return None;
                }
            }
            i += 1;
        }
        None
    }
}

} // verus!
