//! Rendering a field list into the text fragments that the patchers
//! insert: the field block of a structured variant, the destructuring
//! pattern of a dispatch branch, and the variant itself.

use vstd::prelude::*;

verus! {

/// One line of a structured variant's field block: `        name: type`.
pub open spec fn field_line(f: (Seq<char>, Seq<char>)) -> Seq<char> {
    "        "@ + f.0 + ": "@ + f.1
}

/// The field block of a structured variant: the field lines in field
/// list order, joined by `,\n`.
pub open spec fn field_block(fs: Seq<(Seq<char>, Seq<char>)>) -> Seq<char>
    decreases fs.len(),
{
    if fs.len() == 0 {
        Seq::<char>::empty()
    } else if fs.len() == 1 {
        field_line(fs[0])
    } else {
        field_block(fs.drop_last()) + ",\n"@ + field_line(fs.last())
    }
}

/// The destructuring pattern of a dispatch branch: the bare field
/// names in field list order, joined by `, `.
pub open spec fn field_pattern(fs: Seq<(Seq<char>, Seq<char>)>) -> Seq<char>
    decreases fs.len(),
{
    if fs.len() == 0 {
        Seq::<char>::empty()
    } else if fs.len() == 1 {
        fs[0].0
    } else {
        field_pattern(fs.drop_last()) + ", "@ + fs.last().0
    }
}

/// The new variant's text, followed by the fixed `Noop` fallback case:
/// a bare case label for an empty field list, a structured variant
/// otherwise.
pub open spec fn variant_text(name: Seq<char>, fs: Seq<(Seq<char>, Seq<char>)>) -> Seq<char> {
    if fs.len() == 0 {
        "    "@ + name + ",\n    Noop"@
    } else {
        "    "@ + name + " {\n"@ + field_block(fs) + "\n    },\n    Noop"@
    }
}

/// Field order preservation in the field block: each successive field's
/// line is appended after the lines of all the fields before it.
pub proof fn lemma_field_block_order(fs: Seq<(Seq<char>, Seq<char>)>, i: int)
    requires
        0 <= i < fs.len(),
    ensures
        field_block(fs.take(i + 1)) == if i == 0 {
            field_line(fs[0])
        } else {
            (field_block(fs.take(i)) + ",\n"@ + field_line(fs[i]))
        },
{
    let cur = fs.take(i + 1);
    assert(cur.drop_last() =~= fs.take(i));
    assert(cur.last() == fs[i]);
    if i == 0 {
        assert(cur[0] == fs[0]);
    }
}

/// Field order preservation in the destructuring pattern: each
/// successive field's name is appended after the names of all the
/// fields before it.
pub proof fn lemma_field_pattern_order(fs: Seq<(Seq<char>, Seq<char>)>, i: int)
    requires
        0 <= i < fs.len(),
    ensures
        field_pattern(fs.take(i + 1)) == if i == 0 {
            fs[0].0
        } else {
            (field_pattern(fs.take(i)) + ", "@ + fs[i].0)
        },
{
    let cur = fs.take(i + 1);
    assert(cur.drop_last() =~= fs.take(i));
    assert(cur.last() == fs[i]);
    if i == 0 {
        assert(cur[0] == fs[0]);
    }
}

/// Empty-field shape: with no fields the variant is a bare case label
/// followed by the `Noop` case, and the destructuring pattern is empty.
pub proof fn lemma_empty_field_list_shape(name: Seq<char>)
    ensures
        variant_text(name, Seq::<(Seq<char>, Seq<char>)>::empty()) == "    "@ + name
            + ",\n    Noop"@,
        field_pattern(Seq::<(Seq<char>, Seq<char>)>::empty()) == Seq::<char>::empty(),
{
}

/// Renders the field block of a structured variant.
pub fn render_field_block(fields: &[(String, String)]) -> (res: String)
    ensures
        res@ == field_block(fields.deep_view()),
{
    let ghost fv = fields.deep_view();
    let mut out = String::new();
    proof {
        assert(fv.take(0) =~= Seq::<(Seq<char>, Seq<char>)>::empty());
    }
    let mut i: usize = 0;
    while i < fields.len()
        invariant
            fv == fields.deep_view(),
            fv.len() == fields@.len(),
            i <= fields@.len(),
            out@ == field_block(fv.take(i as int)),
        decreases fields@.len() - i,
    {
        if i > 0 {
            out.append(",\n");
        }
        out.append("        ");
        out.append(fields[i].0.as_str());
        out.append(": ");
        out.append(fields[i].1.as_str());
        proof {
            lemma_field_block_order(fv, i as int);
            assert(out@ =~= field_block(fv.take(i + 1)));
        }
        i = i + 1;
    }
    proof {
        assert(fv.take(fv.len() as int) =~= fv);
    }
    out
}

/// Renders the destructuring pattern of a dispatch branch.
pub fn render_field_pattern(fields: &[(String, String)]) -> (res: String)
    ensures
        res@ == field_pattern(fields.deep_view()),
{
    let ghost fv = fields.deep_view();
    let mut out = String::new();
    proof {
        assert(fv.take(0) =~= Seq::<(Seq<char>, Seq<char>)>::empty());
    }
    let mut i: usize = 0;
    while i < fields.len()
        invariant
            fv == fields.deep_view(),
            fv.len() == fields@.len(),
            i <= fields@.len(),
            out@ == field_pattern(fv.take(i as int)),
        decreases fields@.len() - i,
    {
        if i > 0 {
            out.append(", ");
        }
        out.append(fields[i].0.as_str());
        proof {
            lemma_field_pattern_order(fv, i as int);
            assert(out@ =~= field_pattern(fv.take(i + 1)));
        }
        i = i + 1;
    }
    proof {
        assert(fv.take(fv.len() as int) =~= fv);
    }
    out
}

/// Renders the new variant followed by the fixed `Noop` case.
pub fn render_variant(tx_name: &str, fields: &[(String, String)]) -> (res: String)
    ensures
        res@ == variant_text(tx_name@, fields.deep_view()),
{
    let mut out = String::from_str("    ");
    out.append(tx_name);
    if fields.len() == 0 {
        out.append(",\n    Noop");
        proof {
            assert(out@ =~= variant_text(tx_name@, fields.deep_view()));
        }
    } else {
        out.append(" {\n");
        let block = render_field_block(fields);
        out.append(block.as_str());
        out.append("\n    },\n    Noop");
        proof {
            assert(out@ =~= variant_text(tx_name@, fields.deep_view()));
        }
    }
    out
}

} // verus!
