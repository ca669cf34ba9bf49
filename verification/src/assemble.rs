//! Assembly of the final upgrade script text.
//!
//! The script is a fixed sequence of sections: an optional prepended
//! block, a comment naming the upgrade direction, a version-setting
//! directive, a transaction holding the filtered contents of each new
//! upgrade, an optional block of moved upgrades copied verbatim, a fixed
//! auditor-maintenance statement, and an optional appended block.

use crate::lines::{filter_upgrade_lines, spec_filtered};
use vstd::prelude::*;

verus! {

/// The inputs of one assembly run, as plain values: the versions and the
/// already-read contents of every file that goes into the script.
pub struct ScriptInput {
    /// Contents of the files to prepend, in order, or `None` when no
    /// prepend section is wanted.
    pub prepend: Option<Vec<String>>,
    /// The version being upgraded from.
    pub from_version: String,
    /// The version being upgraded to.
    pub version: String,
    /// Contents of the new upgrades for the transactional body, in order.
    pub main_upgrades: Vec<String>,
    /// Contents of the moved upgrades, in order.
    pub moved_upgrades: Vec<String>,
    /// Contents of the files to append, in order, or `None`.
    pub append: Option<Vec<String>>,
}

/// The concatenation of `xs`, each element copied verbatim.
pub open spec fn cat_all(xs: Seq<Seq<char>>) -> Seq<char>
    decreases xs.len(),
{
    if xs.len() == 0 {
        Seq::empty()
    } else {
        xs[0] + cat_all(xs.drop_first())
    }
}

/// The concatenation of `xs`, each element in upgrade-mode copy: its
/// lines minus transaction markers.
pub open spec fn cat_filtered(xs: Seq<Seq<char>>) -> Seq<char>
    decreases xs.len(),
{
    if xs.len() == 0 {
        Seq::empty()
    } else {
        spec_filtered(xs[0]) + cat_filtered(xs.drop_first())
    }
}

/// The prepended block: absent, or its contents between fixed markers.
pub open spec fn spec_prepend_section(prepend: Option<Seq<Seq<char>>>) -> Seq<char> {
    match prepend {
        Some(files) => "-- Start of prepended code\n"@ + cat_all(files)
            + "-- End of prepended code\n\n"@,
        None => Seq::empty(),
    }
}

/// The two-line preamble naming the upgrade direction and setting the
/// target version, followed by the transaction opening.
pub open spec fn spec_preamble(from_version: Seq<char>, version: Seq<char>) -> Seq<char> {
    "-- Upgrade script for Evergreen "@ + from_version + " to "@ + version + "\n"@
        + "\\set eg_version '''"@ + version + "'''\n"@ + "\nBEGIN;\n"@
}

/// The moved block: empty when no upgrade was moved, else the moved
/// contents, copied verbatim, between fixed markers.
pub open spec fn spec_moved_section(moved: Seq<Seq<char>>) -> Seq<char> {
    if moved.len() == 0 {
        Seq::empty()
    } else {
        "-- Start of moved upgrades\n"@ + cat_all(moved) + "-- End of moved upgrades\n\n"@
    }
}

/// The appended block: absent, or its contents between fixed markers.
pub open spec fn spec_append_section(append: Option<Seq<Seq<char>>>) -> Seq<char> {
    match append {
        Some(files) => "\n-- Start of appended code\n"@ + cat_all(files)
            + "-- End of appended code\n"@,
        None => Seq::empty(),
    }
}

/// The fixed auditor-maintenance tail of the transactional part.
pub open spec fn spec_auditor_section() -> Seq<char> {
    "-- Update auditor tables to catch changes in source tables.\n"@
        + "-- Can be removed/skipped if there were no schema changes.\n"@
        + "SELECT auditor.update_auditors();\n"@
}

/// The whole assembled script for the given inputs.
pub open spec fn spec_assembled(
    prepend: Option<Seq<Seq<char>>>,
    from_version: Seq<char>,
    version: Seq<char>,
    main_upgrades: Seq<Seq<char>>,
    moved_upgrades: Seq<Seq<char>>,
    append: Option<Seq<Seq<char>>>,
) -> Seq<char> {
    spec_prepend_section(prepend) + spec_preamble(from_version, version) + cat_filtered(
        main_upgrades,
    ) + "COMMIT;\n\n"@ + spec_moved_section(moved_upgrades) + spec_auditor_section()
        + spec_append_section(append)
}

/// Append every element of `files` to `out` verbatim, in order.
fn append_all(out: &mut String, files: &Vec<String>)
    ensures
        final(out)@ == old(out)@ + cat_all(files.deep_view()),
{
    let ghost all = files.deep_view();
    let mut i: usize = 0;
    proof {
        assert(all.skip(0) =~= all);
    }
    while i < files.len()
        invariant
            all == files.deep_view(),
            i <= files.len(),
            old(out)@ + cat_all(all) == out@ + cat_all(all.skip(i as int)),
        decreases files.len() - i,
    {
        let ghost rest = all.skip(i as int);
        proof {
            assert(rest[0] == all[i as int]);
            assert(rest.drop_first() =~= all.skip(i + 1));
        }
        out.append(files[i].as_str());
        i += 1;
    }
    proof {
        assert(all.skip(files.len() as int) =~= Seq::<Seq<char>>::empty());
    }
}

/// Append every element of `files` to `out` in upgrade-mode copy, in
/// order: each element's lines minus transaction markers.
fn append_filtered(out: &mut String, files: &Vec<String>)
    ensures
        final(out)@ == old(out)@ + cat_filtered(files.deep_view()),
{
    let ghost all = files.deep_view();
    let mut i: usize = 0;
    proof {
        assert(all.skip(0) =~= all);
    }
    while i < files.len()
        invariant
            all == files.deep_view(),
            i <= files.len(),
            old(out)@ + cat_filtered(all) == out@ + cat_filtered(all.skip(i as int)),
        decreases files.len() - i,
    {
        let ghost rest = all.skip(i as int);
        proof {
            assert(rest[0] == all[i as int]);
            assert(rest.drop_first() =~= all.skip(i + 1));
        }
        let body = filter_upgrade_lines(files[i].as_str());
        out.append(body.as_str());
        i += 1;
    }
    proof {
        assert(all.skip(files.len() as int) =~= Seq::<Seq<char>>::empty());
    }
}

/// The assembled upgrade script for the given inputs, as one text.
///
/// The output is a pure function of the inputs: two runs over equal
/// inputs yield byte-identical scripts.
pub fn assemble_script(input: &ScriptInput) -> (r: String)
    ensures
        r@ == spec_assembled(
            input.prepend.deep_view(),
            input.from_version@,
            input.version@,
            input.main_upgrades.deep_view(),
            input.moved_upgrades.deep_view(),
            input.append.deep_view(),
        ),
{
    let mut out = String::new();
    match &input.prepend {
        Some(files) => {
            out.append("-- Start of prepended code\n");
            append_all(&mut out, files);
            out.append("-- End of prepended code\n\n");
        },
        None => {},
    }
    out.append("-- Upgrade script for Evergreen ");
    out.append(input.from_version.as_str());
    out.append(" to ");
    out.append(input.version.as_str());
    out.append("\n");
    out.append("\\set eg_version '''");
    out.append(input.version.as_str());
    out.append("'''\n");
    out.append("\nBEGIN;\n");
    append_filtered(&mut out, &input.main_upgrades);
    out.append("COMMIT;\n\n");
    if input.moved_upgrades.len() > 0 {
        out.append("-- Start of moved upgrades\n");
        append_all(&mut out, &input.moved_upgrades);
        out.append("-- End of moved upgrades\n\n");
    }
    out.append("-- Update auditor tables to catch changes in source tables.\n");
    out.append("-- Can be removed/skipped if there were no schema changes.\n");
    out.append("SELECT auditor.update_auditors();\n");
    match &input.append {
        Some(files) => {
            out.append("\n-- Start of appended code\n");
            append_all(&mut out, files);
            out.append("-- End of appended code\n");
        },
        None => {},
    }
    proof {
        assert(input.moved_upgrades.deep_view().len() == input.moved_upgrades@.len());
        assert(out@ =~= spec_assembled(
            input.prepend.deep_view(),
            input.from_version@,
            input.version@,
            input.main_upgrades.deep_view(),
            input.moved_upgrades.deep_view(),
            input.append.deep_view(),
        ));
    }
    out
}

/// Assembly is deterministic: two runs whose inputs are equal, section
/// by section, produce the same script text.
pub proof fn lemma_assembly_deterministic(a: ScriptInput, b: ScriptInput)
    requires
        a.prepend.deep_view() == b.prepend.deep_view(),
        a.from_version@ == b.from_version@,
        a.version@ == b.version@,
        a.main_upgrades.deep_view() == b.main_upgrades.deep_view(),
        a.moved_upgrades.deep_view() == b.moved_upgrades.deep_view(),
        a.append.deep_view() == b.append.deep_view(),
    ensures
        spec_assembled(
            a.prepend.deep_view(),
            a.from_version@,
            a.version@,
            a.main_upgrades.deep_view(),
            a.moved_upgrades.deep_view(),
            a.append.deep_view(),
        ) == spec_assembled(
            b.prepend.deep_view(),
            b.from_version@,
            b.version@,
            b.main_upgrades.deep_view(),
            b.moved_upgrades.deep_view(),
            b.append.deep_view(),
        ),
{
}

} // verus!
