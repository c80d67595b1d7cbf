//! The two template patchers.
//!
//! The transaction-definition patcher inserts a new variant into the
//! closed enumeration of transaction kinds and a matching branch into
//! the verification dispatch. The state patcher inserts matching
//! branches into the two dispatch functions (validation, processing)
//! of the state-transition template, which share one anchor text and
//! are therefore patched sequentially, first occurrence first.

use vstd::prelude::*;

use crate::patch::{
    first_match, lemma_replace_first_no_match, lemma_replace_two_sites, match_at, replace_first,
    replace_first_spec, splice,
};
use crate::render::{
    field_pattern, render_field_pattern, render_variant, variant_text,
};

verus! {

/// The anchor of the closed enumeration of transaction kinds: the
/// `Noop`-only enumeration with its fixed decorator header line.
pub open spec fn enum_anchor() -> Seq<char> {
    "#[derive(Subcommand, Clone, Serialize, Deserialize, Debug)]\npub enum Transaction {\n    Noop,\n}"@
}

/// The anchor of the verification dispatch: the function body that
/// dispatches only on `Noop`.
pub open spec fn verify_anchor() -> Seq<char> {
    "    pub fn verify(&self) -> Result<()> {\n        match self {\n            Transaction::Noop => Ok(()),\n        }\n    }"@
}

/// The anchor shared by the validation and processing dispatches of
/// the state-transition template: a dispatch body containing only the
/// `Noop` fallback.
pub open spec fn dispatch_anchor() -> Seq<char> {
    "        match tx {\n            Transaction::Noop => Ok(()),\n        }"@
}

/// What replaces the enumeration anchor: the same header, then the new
/// variant and the `Noop` fallback case.
pub open spec fn enum_replacement(name: Seq<char>, fs: Seq<(Seq<char>, Seq<char>)>) -> Seq<
    char,
> {
    "#[derive(Subcommand, Clone, Serialize, Deserialize, Debug)]\npub enum Transaction {\n"@
        + variant_text(name, fs) + "\n}"@
}

/// The new verification dispatch body: a branch for the new variant,
/// destructuring all field names in order, with a marker comment and a
/// success result, then the `Noop` fallback branch.
pub open spec fn verify_dispatch(name: Seq<char>, fs: Seq<(Seq<char>, Seq<char>)>) -> Seq<
    char,
> {
    "        match self {\n            Self::"@ + name + " { "@ + field_pattern(fs)
        + " } => {\n                // add custom verification logic here\n                Ok(())\n            },\n            Self::Noop => Ok(()),\n        }"@
}

/// What replaces the verification anchor: the function header wrapping
/// the new verification dispatch body.
pub open spec fn verify_replacement(name: Seq<char>, fs: Seq<(Seq<char>, Seq<char>)>) -> Seq<
    char,
> {
    "    pub fn verify(&self) -> Result<()> {\n"@ + verify_dispatch(name, fs) + "\n    }"@
}

/// What replaces each occurrence of the state dispatch anchor: a branch
/// for the new kind, destructuring all field names in order, then the
/// `Noop` fallback branch.
pub open spec fn dispatch_replacement(name: Seq<char>, fs: Seq<(Seq<char>, Seq<char>)>) -> Seq<
    char,
> {
    "        match tx {\n            Transaction::"@ + name + " { "@ + field_pattern(fs)
        + " } => Ok(()),\n            Transaction::Noop => Ok(()),\n        }"@
}

/// The patched transaction-definition text: the enumeration anchor and
/// then the verification anchor each replaced at their first
/// occurrence; an absent anchor leaves the text unchanged.
pub open spec fn tx_file_text(
    name: Seq<char>,
    fs: Seq<(Seq<char>, Seq<char>)>,
    template: Seq<char>,
) -> Seq<char> {
    replace_first_spec(
        replace_first_spec(template, enum_anchor(), enum_replacement(name, fs)),
        verify_anchor(),
        verify_replacement(name, fs),
    )
}

/// The patched state-transition text: the shared dispatch anchor
/// replaced twice in sequence, first occurrence first, so that the
/// validation and the processing dispatch are each patched once.
pub open spec fn state_file_text(
    name: Seq<char>,
    fs: Seq<(Seq<char>, Seq<char>)>,
    template: Seq<char>,
) -> Seq<char> {
    replace_first_spec(
        replace_first_spec(template, dispatch_anchor(), dispatch_replacement(name, fs)),
        dispatch_anchor(),
        dispatch_replacement(name, fs),
    )
}

/// Rewrites the transaction-definition template: inserts the new
/// variant into the enumeration of transaction kinds and a matching
/// branch into the verification dispatch.
pub fn modify_tx_file(tx_name: &str, fields: &[(String, String)], template: &str) -> (res:
    String)
    ensures
        res@ == tx_file_text(tx_name@, fields.deep_view(), template@),
{
    proof {
        reveal_strlit(
            "#[derive(Subcommand, Clone, Serialize, Deserialize, Debug)]\npub enum Transaction {\n    Noop,\n}",
        );
        reveal_strlit(
            "    pub fn verify(&self) -> Result<()> {\n        match self {\n            Transaction::Noop => Ok(()),\n        }\n    }",
        );
    }
    let variant = render_variant(tx_name, fields);
    let mut enum_repl = String::from_str(
        "#[derive(Subcommand, Clone, Serialize, Deserialize, Debug)]\npub enum Transaction {\n",
    );
    enum_repl.append(variant.as_str());
    enum_repl.append("\n}");
    proof {
        assert(enum_repl@ =~= enum_replacement(tx_name@, fields.deep_view()));
    }
    let step1 = replace_first(
        template,
        "#[derive(Subcommand, Clone, Serialize, Deserialize, Debug)]\npub enum Transaction {\n    Noop,\n}",
        enum_repl.as_str(),
    );

    let pattern = render_field_pattern(fields);
    let mut arm = String::from_str("        match self {\n            Self::");
    arm.append(tx_name);
    arm.append(" { ");
    arm.append(pattern.as_str());
    arm.append(
        " } => {\n                // add custom verification logic here\n                Ok(())\n            },\n            Self::Noop => Ok(()),\n        }",
    );
    let mut verify_repl = String::from_str("    pub fn verify(&self) -> Result<()> {\n");
    verify_repl.append(arm.as_str());
    verify_repl.append("\n    }");
    proof {
        assert(verify_repl@ =~= verify_replacement(tx_name@, fields.deep_view()));
    }
    let step2 = replace_first(
        step1.as_str(),
        "    pub fn verify(&self) -> Result<()> {\n        match self {\n            Transaction::Noop => Ok(()),\n        }\n    }",
        verify_repl.as_str(),
    );
    step2
}

/// Rewrites the state-transition template: inserts a matching branch
/// into the validation dispatch and then into the processing dispatch,
/// which share one anchor text, by two sequential first-occurrence
/// replacements.
pub fn modify_state_file(tx_name: &str, fields: &[(String, String)], template: &str) -> (res:
    String)
    ensures
        res@ == state_file_text(tx_name@, fields.deep_view(), template@),
{
    proof {
        reveal_strlit("        match tx {\n            Transaction::Noop => Ok(()),\n        }");
    }
    let pattern = render_field_pattern(fields);
    let mut branch = String::from_str("        match tx {\n            Transaction::");
    branch.append(tx_name);
    branch.append(" { ");
    branch.append(pattern.as_str());
    branch.append(" } => Ok(()),\n            Transaction::Noop => Ok(()),\n        }");
    proof {
        assert(branch@ =~= dispatch_replacement(tx_name@, fields.deep_view()));
    }
    let step1 = replace_first(
        template,
        "        match tx {\n            Transaction::Noop => Ok(()),\n        }",
        branch.as_str(),
    );
    let step2 = replace_first(
        step1.as_str(),
        "        match tx {\n            Transaction::Noop => Ok(()),\n        }",
        branch.as_str(),
    );
    step2
}

/// Anchor-miss pass-through for the transaction-definition patcher: a
/// template in which neither anchor occurs is returned unchanged.
pub proof fn lemma_tx_patch_pass_through(
    name: Seq<char>,
    fs: Seq<(Seq<char>, Seq<char>)>,
    template: Seq<char>,
)
    requires
        forall|k: int| !match_at(template, enum_anchor(), k),
        forall|k: int| !match_at(template, verify_anchor(), k),
    ensures
        tx_file_text(name, fs, template) == template,
{
    reveal_strlit(
        "#[derive(Subcommand, Clone, Serialize, Deserialize, Debug)]\npub enum Transaction {\n    Noop,\n}",
    );
    reveal_strlit(
        "    pub fn verify(&self) -> Result<()> {\n        match self {\n            Transaction::Noop => Ok(()),\n        }\n    }",
    );
    lemma_replace_first_no_match(template, enum_anchor(), enum_replacement(name, fs));
    lemma_replace_first_no_match(template, verify_anchor(), verify_replacement(name, fs));
}

/// Two-branch divergence in the state patch: when the dispatch anchor
/// first occurs in the template at `i` (the validation dispatch) and
/// again, disjointly, at `j` (the processing dispatch), and the first
/// replacement leaves the shifted second occurrence as the first match
/// of its result (the new branch text does not reintroduce the anchor
/// any earlier), the state patcher patches both sites: its output
/// holds the new dispatch block at two distinct positions, each
/// referencing the new transaction kind, with the text before, between
/// and after the two sites unchanged.
pub proof fn lemma_state_patch_two_sites(
    name: Seq<char>,
    fs: Seq<(Seq<char>, Seq<char>)>,
    template: Seq<char>,
    i: int,
    j: int,
)
    requires
        first_match(template, dispatch_anchor()) == Some(i),
        match_at(template, dispatch_anchor(), j),
        i + dispatch_anchor().len() <= j,
        first_match(
            splice(
                template,
                i,
                dispatch_anchor().len() as int,
                dispatch_replacement(name, fs),
            ),
            dispatch_anchor(),
        ) == Some(j + dispatch_replacement(name, fs).len() - dispatch_anchor().len()),
    ensures
        state_file_text(name, fs, template) == template.subrange(0, i) + dispatch_replacement(
            name,
            fs,
        ) + template.subrange(i + dispatch_anchor().len(), j) + dispatch_replacement(name, fs)
            + template.subrange(j + dispatch_anchor().len(), template.len() as int),
        match_at(state_file_text(name, fs, template), dispatch_replacement(name, fs), i),
        match_at(
            state_file_text(name, fs, template),
            dispatch_replacement(name, fs),
            j + dispatch_replacement(name, fs).len() - dispatch_anchor().len(),
        ),
{
    reveal_strlit("        match tx {\n            Transaction::Noop => Ok(()),\n        }");
    lemma_replace_two_sites(
        template,
        dispatch_anchor(),
        dispatch_replacement(name, fs),
        i,
        j,
    );
}

/// Anchor-miss pass-through for the state patcher: a template in which
/// the dispatch anchor occurs nowhere is returned unchanged by both
/// replacement steps.
pub proof fn lemma_state_patch_pass_through(
    name: Seq<char>,
    fs: Seq<(Seq<char>, Seq<char>)>,
    template: Seq<char>,
)
    requires
        forall|k: int| !match_at(template, dispatch_anchor(), k),
    ensures
        state_file_text(name, fs, template) == template,
{
    reveal_strlit("        match tx {\n            Transaction::Noop => Ok(()),\n        }");
    lemma_replace_first_no_match(template, dispatch_anchor(), dispatch_replacement(name, fs));
}

} // verus!
