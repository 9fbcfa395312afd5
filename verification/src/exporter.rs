//! Export rendering: the CSV field row and the JSON line for a label.
//!
//! The writers themselves (files, CSV quoting) live outside this
//! crate; what each exported record contains is specified here,
//! including the fixed CSV column order and the four-decimal
//! confidence rendering.

use vstd::prelude::*;

use crate::prompt::{
    append_entities_json, append_json_string, append_signals_json, entities_json, json_string,
    signals_json,
};
use crate::schema::{
    label_model, label_wf, reasons_view, spec_industry_text, spec_sms_type_text, Label, LabelModel,
};
use crate::text::{append_lit, lemma_concat_reassoc, string_from_chars, str_eq};

verus! {

/// Export options: which rows and which format (`csv` or `jsonl`).
pub struct ExportOptions {
    pub only_reviewed: bool,
    pub format: String,
}

/// The supported export formats.
#[derive(Clone, Copy, PartialEq, Eq, Structural, Debug)]
pub enum ExportFormat {
    Csv,
    Jsonl,
}

pub open spec fn spec_parse_format(s: Seq<char>) -> Option<ExportFormat> {
    if s == "csv"@ {
        Some(ExportFormat::Csv)
    } else if s == "jsonl"@ {
        Some(ExportFormat::Jsonl)
    } else {
        None
    }
}

/// Parses an export format name (already lowercased); unknown names
/// are rejected.
pub fn parse_export_format(s: &str) -> (r: Result<ExportFormat, String>)
    ensures
        match r {
            Ok(f) => spec_parse_format(s@) == Some(f),
            Err(e) => spec_parse_format(s@) is None && e@
                == "unsupported export format (csv/jsonl)"@,
        },
{
    if str_eq(s, "csv") {
        Ok(ExportFormat::Csv)
    } else if str_eq(s, "jsonl") {
        Ok(ExportFormat::Jsonl)
    } else {
        Err(String::from_str("unsupported export format (csv/jsonl)"))
    }
}

/// The decimal digit character of `d` (0..=9).
pub open spec fn dec_digit(d: int) -> char {
    if d == 0 {
        '0'
    } else if d == 1 {
        '1'
    } else if d == 2 {
        '2'
    } else if d == 3 {
        '3'
    } else if d == 4 {
        '4'
    } else if d == 5 {
        '5'
    } else if d == 6 {
        '6'
    } else if d == 7 {
        '7'
    } else if d == 8 {
        '8'
    } else {
        '9'
    }
}

fn dec_digit_char(d: u32) -> (c: char)
    requires
        d < 10,
    ensures
        c == dec_digit(d as int),
{
    if d == 0 {
        '0'
    } else if d == 1 {
        '1'
    } else if d == 2 {
        '2'
    } else if d == 3 {
        '3'
    } else if d == 4 {
        '4'
    } else if d == 5 {
        '5'
    } else if d == 6 {
        '6'
    } else if d == 7 {
        '7'
    } else if d == 8 {
        '8'
    } else {
        '9'
    }
}

/// A confidence in ten-thousandths rendered with four decimals:
/// `9800` becomes `0.9800`, `10000` becomes `1.0000`.
pub open spec fn spec_confidence_text(c: int) -> Seq<char> {
    seq![
        dec_digit(c / 10000 % 10),
        '.',
        dec_digit(c / 1000 % 10),
        dec_digit(c / 100 % 10),
        dec_digit(c / 10 % 10),
        dec_digit(c % 10),
    ]
}

/// Renders a confidence with four decimal places.
pub fn confidence_text(c: u32) -> (r: String)
    requires
        c <= 10000,
    ensures
        r@ == spec_confidence_text(c as int),
{
    let mut out: Vec<char> = Vec::new();
    out.push(dec_digit_char(c / 10000 % 10));
    out.push('.');
    out.push(dec_digit_char(c / 1000 % 10));
    out.push(dec_digit_char(c / 100 % 10));
    out.push(dec_digit_char(c / 10 % 10));
    out.push(dec_digit_char(c % 10));
    proof {
        assert(out@ =~= spec_confidence_text(c as int));
    }
    string_from_chars(&out)
}

/// Items joined with a separator: the first item, then the tail each
/// preceded by the separator.
pub open spec fn joined(xs: Seq<Seq<char>>, sep: Seq<char>) -> Seq<char> {
    if xs.len() == 0 {
        Seq::<char>::empty()
    } else {
        xs[0] + join_tail(xs, sep, 1)
    }
}

pub open spec fn join_tail(xs: Seq<Seq<char>>, sep: Seq<char>, i: int) -> Seq<char>
    decreases xs.len() - i,
{
    if i < 0 || i >= xs.len() {
        Seq::<char>::empty()
    } else {
        sep + xs[i] + join_tail(xs, sep, i + 1)
    }
}

/// Joins strings with a separator literal.
#[verifier::loop_isolation(false)]
pub fn join_strings(v: &Vec<String>, sep: &str) -> (r: String)
    ensures
        r@ == joined(reasons_view(v@), sep@),
{
    if v.len() == 0 {
        return String::new();
    }
    let mut out: Vec<char> = Vec::new();
    append_lit(&mut out, v[0].as_str());
    let ghost xs = reasons_view(v@);
    let ghost mut acc: Seq<char> = Seq::<char>::empty();
    proof {
        assert(xs[0] + acc =~= xs[0]);
        assert(join_tail(xs, sep@, 1) =~= acc + join_tail(xs, sep@, 1));
    }
    let mut i: usize = 1;
    while i < v.len()
        invariant
            1 <= i <= v@.len(),
            xs == reasons_view(v@),
            xs.len() == v@.len(),
            out@ == xs[0] + acc,
            join_tail(xs, sep@, 1) == acc + join_tail(xs, sep@, i as int),
        decreases v@.len() - i,
    {
        append_lit(&mut out, sep);
        append_lit(&mut out, v[i].as_str());
        proof {
            lemma_concat_reassoc(xs[0], acc, sep@);
            lemma_concat_reassoc(xs[0], acc + sep@, xs[i as int]);
            lemma_concat_reassoc(acc, sep@, xs[i as int]);
            let p = sep@ + xs[i as int];
            lemma_concat_reassoc(acc, p, join_tail(xs, sep@, i + 1));
            acc = acc + p;
        }
        i += 1;
    }
    proof {
        assert(acc + Seq::<char>::empty() =~= acc);
        assert(out@ == joined(xs, sep@));
    }
    string_from_chars(&out)
}

/// The sixteen CSV fields of one label, in the fixed column order:
/// industry, type, confidence, needs_review, the eight entities,
/// rules_version, model_version, schema_version, and the reasons
/// joined with ` | `.
pub open spec fn spec_csv_fields(lm: LabelModel) -> Seq<Seq<char>> {
    seq![
        spec_industry_text(lm.industry),
        spec_sms_type_text(lm.sms_type),
        spec_confidence_text(lm.confidence),
        (if lm.needs_review {
            "true"@
        } else {
            "false"@
        }),
        opt_or_empty(lm.entities.brand),
        opt_or_empty(lm.entities.verification_code),
        opt_or_empty(lm.entities.amount),
        opt_or_empty(lm.entities.balance),
        opt_or_empty(lm.entities.account_suffix),
        opt_or_empty(lm.entities.time_text),
        opt_or_empty(lm.entities.url),
        opt_or_empty(lm.entities.phone_in_text),
        lm.rules_version,
        lm.model_version,
        lm.schema_version,
        joined(lm.reasons, " | "@),
    ]
}

pub open spec fn opt_or_empty(o: Option<Seq<char>>) -> Seq<char> {
    match o {
        Some(s) => s,
        None => Seq::<char>::empty(),
    }
}

fn opt_string_or_empty(o: &Option<String>) -> (r: String)
    ensures
        r@ == opt_or_empty(crate::schema::opt_view(*o)),
{
    match o {
        Some(s) => s.clone(),
        None => String::new(),
    }
}

/// The CSV record for one label, in the fixed column order.
pub fn csv_record_for_label(l: &Label) -> (r: Vec<String>)
    requires
        label_wf(label_model(*l)),
    ensures
        reasons_view(r@) == spec_csv_fields(label_model(*l)),
{
    let mut r: Vec<String> = Vec::new();
    r.push(crate::schema::industry_text(l.industry));
    r.push(crate::schema::sms_type_text(l.sms_type));
    r.push(confidence_text(l.confidence));
    r.push(
        if l.needs_review {
            String::from_str("true")
        } else {
            String::from_str("false")
        },
    );
    r.push(opt_string_or_empty(&l.entities.brand));
    r.push(opt_string_or_empty(&l.entities.verification_code));
    r.push(opt_string_or_empty(&l.entities.amount));
    r.push(opt_string_or_empty(&l.entities.balance));
    r.push(opt_string_or_empty(&l.entities.account_suffix));
    r.push(opt_string_or_empty(&l.entities.time_text));
    r.push(opt_string_or_empty(&l.entities.url));
    r.push(opt_string_or_empty(&l.entities.phone_in_text));
    r.push(l.rules_version.clone());
    r.push(l.model_version.clone());
    r.push(l.schema_version.clone());
    r.push(join_strings(&l.reasons, " | "));
    proof {
        assert(reasons_view(r@) =~= spec_csv_fields(label_model(*l)));
    }
    r
}

/// A JSON array of strings.
pub open spec fn json_string_array(xs: Seq<Seq<char>>) -> Seq<char> {
    "["@ + (if xs.len() == 0 {
        Seq::<char>::empty()
    } else {
        json_string(xs[0]) + array_tail(xs, 1)
    }) + "]"@
}

pub open spec fn array_tail(xs: Seq<Seq<char>>, i: int) -> Seq<char>
    decreases xs.len() - i,
{
    if i < 0 || i >= xs.len() {
        Seq::<char>::empty()
    } else {
        ","@ + json_string(xs[i]) + array_tail(xs, i + 1)
    }
}

/// Appends a JSON array of the strings in `v`.
#[verifier::loop_isolation(false)]
fn append_json_string_array(out: &mut Vec<char>, v: &Vec<String>)
    ensures
        final(out)@ == old(out)@ + json_string_array(reasons_view(v@)),
{
    let ghost base = out@;
    let ghost xs = reasons_view(v@);
    append_lit(out, "[");
    if v.len() == 0 {
        append_lit(out, "]");
        proof {
            lemma_concat_reassoc(base, "["@, "]"@);
            assert("["@ + Seq::<char>::empty() =~= "["@);
            assert(out@ == base + json_string_array(xs));
        }
        return ;
    }
    append_json_string(out, v[0].as_str());
    let ghost mut acc: Seq<char> = "["@ + json_string(xs[0]);
    proof {
        lemma_concat_reassoc(base, "["@, json_string(xs[0]));
        assert(out@ == base + acc);
        assert(json_string(xs[0]) + array_tail(xs, 1) =~= (json_string(xs[0]) + array_tail(
            xs,
            1,
        )));
        lemma_concat_reassoc("["@, json_string(xs[0]), array_tail(xs, 1));
    }
    let mut i: usize = 1;
    while i < v.len()
        invariant
            1 <= i <= v@.len(),
            xs == reasons_view(v@),
            xs.len() == v@.len(),
            out@ == base + acc,
            acc + array_tail(xs, i as int) == "["@ + (json_string(xs[0]) + array_tail(xs, 1)),
        decreases v@.len() - i,
    {
        append_lit(out, ",");
        append_json_string(out, v[i].as_str());
        proof {
            lemma_concat_reassoc(base, acc, ","@);
            lemma_concat_reassoc(base, acc + ","@, json_string(xs[i as int]));
            lemma_concat_reassoc(acc, ","@, json_string(xs[i as int]));
            let p = ","@ + json_string(xs[i as int]);
            lemma_concat_reassoc(acc, p, array_tail(xs, i + 1));
            acc = acc + p;
        }
        i += 1;
    }
    append_lit(out, "]");
    proof {
        lemma_concat_reassoc(base, acc, "]"@);
        assert(acc + Seq::<char>::empty() =~= acc);
        assert(acc == "["@ + (json_string(xs[0]) + array_tail(xs, 1)));
        acc = acc + "]"@;
        assert(out@ == base + json_string_array(xs));
    }
}

/// One normalized label as a JSON object line (without a trailing
/// newline), in a fixed key order, confidence with four decimals.
pub open spec fn label_json(lm: LabelModel) -> Seq<char> {
    "{\"industry\":"@ + json_string(spec_industry_text(lm.industry)) + ",\"type\":"@ + json_string(
        spec_sms_type_text(lm.sms_type),
    ) + ",\"entities\":"@ + entities_json(lm.entities) + ",\"confidence\":"@
        + spec_confidence_text(lm.confidence) + ",\"needs_review\":"@ + (if lm.needs_review {
        "true"@
    } else {
        "false"@
    }) + ",\"reasons\":"@ + json_string_array(lm.reasons) + ",\"signals\":"@ + signals_json(
        lm.signals,
    ) + ",\"rules_version\":"@ + json_string(lm.rules_version) + ",\"model_version\":"@
        + json_string(lm.model_version) + ",\"schema_version\":"@ + json_string(lm.schema_version)
        + "}"@
}

/// Renders one label as its JSON export line.
pub fn jsonl_line_for_label(l: &Label) -> (r: String)
    requires
        label_wf(label_model(*l)),
    ensures
        r@ == label_json(label_model(*l)),
{
    let ghost lm = label_model(*l);
    let mut out: Vec<char> = Vec::new();
    append_lit(&mut out, "{\"industry\":");
    let ghost mut acc: Seq<char> = "{\"industry\":"@;
    let t1 = crate::schema::industry_text(l.industry);
    append_json_string(&mut out, t1.as_str());
    proof {
        acc = acc + json_string(spec_industry_text(lm.industry));
        assert(out@ == acc);
    }
    append_lit(&mut out, ",\"type\":");
    proof {
        acc = acc + ",\"type\":"@;
        assert(out@ == acc);
    }
    let t2 = crate::schema::sms_type_text(l.sms_type);
    append_json_string(&mut out, t2.as_str());
    proof {
        acc = acc + json_string(spec_sms_type_text(lm.sms_type));
        assert(out@ == acc);
    }
    append_lit(&mut out, ",\"entities\":");
    proof {
        acc = acc + ",\"entities\":"@;
        assert(out@ == acc);
    }
    append_entities_json(&mut out, &l.entities);
    proof {
        acc = acc + entities_json(lm.entities);
        assert(out@ == acc);
    }
    append_lit(&mut out, ",\"confidence\":");
    proof {
        acc = acc + ",\"confidence\":"@;
        assert(out@ == acc);
    }
    let ct = confidence_text(l.confidence);
    append_lit(&mut out, ct.as_str());
    proof {
        acc = acc + spec_confidence_text(lm.confidence);
        assert(out@ == acc);
    }
    append_lit(&mut out, ",\"needs_review\":");
    proof {
        acc = acc + ",\"needs_review\":"@;
        assert(out@ == acc);
    }
    if l.needs_review {
        append_lit(&mut out, "true");
    } else {
        append_lit(&mut out, "false");
    }
    proof {
        acc = acc + (if lm.needs_review {
            "true"@
        } else {
            "false"@
        });
        assert(out@ == acc);
    }
    append_lit(&mut out, ",\"reasons\":");
    proof {
        acc = acc + ",\"reasons\":"@;
        assert(out@ == acc);
    }
    append_json_string_array(&mut out, &l.reasons);
    proof {
        acc = acc + json_string_array(lm.reasons);
        assert(out@ == acc);
    }
    append_lit(&mut out, ",\"signals\":");
    proof {
        acc = acc + ",\"signals\":"@;
        assert(out@ == acc);
    }
    append_signals_json(&mut out, &l.signals);
    proof {
        acc = acc + signals_json(lm.signals);
        assert(out@ == acc);
    }
    append_lit(&mut out, ",\"rules_version\":");
    proof {
        acc = acc + ",\"rules_version\":"@;
        assert(out@ == acc);
    }
    append_json_string(&mut out, l.rules_version.as_str());
    proof {
        acc = acc + json_string(lm.rules_version);
        assert(out@ == acc);
    }
    append_lit(&mut out, ",\"model_version\":");
    proof {
        acc = acc + ",\"model_version\":"@;
        assert(out@ == acc);
    }
    append_json_string(&mut out, l.model_version.as_str());
    proof {
        acc = acc + json_string(lm.model_version);
        assert(out@ == acc);
    }
    append_lit(&mut out, ",\"schema_version\":");
    proof {
        acc = acc + ",\"schema_version\":"@;
        assert(out@ == acc);
    }
    append_json_string(&mut out, l.schema_version.as_str());
    proof {
        acc = acc + json_string(lm.schema_version);
        assert(out@ == acc);
    }
    append_lit(&mut out, "}");
    proof {
        acc = acc + "}"@;
        assert(out@ == acc);
        assert(out@ == label_json(lm));
    }
    string_from_chars(&out)
}

} // verus!
