//! The package file and the arguments of the package manager.

use crate::messages::{FLAG_NOCONFIRM, FLAG_SYNC};
use crate::model::{package_args, package_names};
use crate::text::{blank, lemma_texts_push, lines_of, split_lines, starts_with_char, texts};
use vstd::prelude::*;

verus! {

/// The packages that the text of a package file offers: its lines, but for
/// the blank ones and those that begin with `#`.
pub fn parse_package_catalog(text: &str) -> (names: Vec<String>)
    ensures
        texts(names@) == package_names(lines_of(text@)),
{
    let lines = split_lines(text);
    let mut names: Vec<String> = Vec::new();
    let mut i: usize = 0;
    assert(texts(names@) =~= Seq::empty());
    assert(texts(lines@).take(0) =~= Seq::empty());
    while i < lines.len()
        invariant
            i <= lines.len(),
            texts(names@) == package_names(texts(lines@).take(i as int)),
        decreases lines.len() - i,
    {
        let line = &lines[i];
        assert(texts(lines@).take(i + 1).drop_last() == texts(lines@).take(i as int));
        assert(texts(lines@).take(i + 1).last() == line@);
        if !blank(line.as_str()) && !starts_with_char(line.as_str(), '#') {
            let name = line.clone();
            proof {
                lemma_texts_push(names@, name);
            }
            names.push(name);
        }
        i += 1;
    }
    assert(texts(lines@).take(lines@.len() as int) == texts(lines@));
    names
}

/// The arguments with which the package manager installs `names`.
pub fn package_manager_args(names: Vec<String>) -> (args: Vec<String>)
    ensures
        texts(args@) == package_args(texts(names@)),
{
    let mut names = names;
    let mut args: Vec<String> = Vec::new();
    args.push(FLAG_SYNC.to_owned());
    args.push(FLAG_NOCONFIRM.to_owned());
    let ghost head = args@;
    let ghost tail = names@;
    args.append(&mut names);
    assert(texts(head + tail) =~= texts(head) + texts(tail));
    assert(texts(head) =~= seq![FLAG_SYNC@, FLAG_NOCONFIRM@]);
    args
}

} // verus!
