//! The strict JSON-only prompt and the recovery of JSON from noisy
//! model output.
//!
//! The prompt embeds the message content (JSON-escaped) and the rule
//! engine's entities and signals, rendered here by a small verified
//! JSON emitter with a fixed key order. `extract_json` recovers the
//! first balanced JSON object from whatever the model printed.

use vstd::prelude::*;

use crate::provider::ClassifyPayload;
use crate::schema::{
    entities_model, signals_model, spec_rule_tag_text, EntitiesModel, SignalsModel,
};
use crate::text::{append_lit, chars_vec, string_from_chars};

verus! {

// ------------------------------------------------------------------
// JSON string escaping
// ------------------------------------------------------------------

/// The lowercase hex digit of `d` (0..=15).
pub open spec fn hex_digit(d: int) -> char {
    if d == 0 {
        '0'
    } else if d == 1 {
        '1'
    } else if d == 2 {
        '2'
    } else if d == 3 {
        '3'
    } else if d == 4 {
        '4'
    } else if d == 5 {
        '5'
    } else if d == 6 {
        '6'
    } else if d == 7 {
        '7'
    } else if d == 8 {
        '8'
    } else if d == 9 {
        '9'
    } else if d == 10 {
        'a'
    } else if d == 11 {
        'b'
    } else if d == 12 {
        'c'
    } else if d == 13 {
        'd'
    } else if d == 14 {
        'e'
    } else {
        'f'
    }
}

/// How one character is written inside a JSON string: quotes and
/// backslashes escaped, control characters by their short escape or
/// `\u00..`, everything else verbatim.
pub open spec fn escape_char(c: char) -> Seq<char> {
    if c == '"' {
        seq!['\\', '"']
    } else if c == '\\' {
        seq!['\\', '\\']
    } else if c == '\u{8}' {
        seq!['\\', 'b']
    } else if c == '\t' {
        seq!['\\', 't']
    } else if c == '\n' {
        seq!['\\', 'n']
    } else if c == '\u{c}' {
        seq!['\\', 'f']
    } else if c == '\r' {
        seq!['\\', 'r']
    } else if (c as u32) < 32 {
        seq![
            '\\',
            'u',
            '0',
            '0',
            hex_digit((c as u32 / 16) as int),
            hex_digit((c as u32 % 16) as int),
        ]
    } else {
        seq![c]
    }
}

/// The escaped characters of `s[i..]`.
pub open spec fn escaped_from(s: Seq<char>, i: int) -> Seq<char>
    decreases s.len() - i,
{
    if i < 0 || i >= s.len() {
        Seq::<char>::empty()
    } else {
        escape_char(s[i]) + escaped_from(s, i + 1)
    }
}

/// `s` as a JSON string token, quotes included.
pub open spec fn json_string(s: Seq<char>) -> Seq<char> {
    seq!['"'] + escaped_from(s, 0) + seq!['"']
}

fn hex_digit_char(d: u32) -> (c: char)
    requires
        d < 16,
    ensures
        c == hex_digit(d as int),
{
    if d == 0 {
        '0'
    } else if d == 1 {
        '1'
    } else if d == 2 {
        '2'
    } else if d == 3 {
        '3'
    } else if d == 4 {
        '4'
    } else if d == 5 {
        '5'
    } else if d == 6 {
        '6'
    } else if d == 7 {
        '7'
    } else if d == 8 {
        '8'
    } else if d == 9 {
        '9'
    } else if d == 10 {
        'a'
    } else if d == 11 {
        'b'
    } else if d == 12 {
        'c'
    } else if d == 13 {
        'd'
    } else if d == 14 {
        'e'
    } else {
        'f'
    }
}

/// Appends the JSON string token for `s` to `out`.
#[verifier::loop_isolation(false)]
pub(crate) fn append_json_string(out: &mut Vec<char>, s: &str)
    ensures
        final(out)@ == old(out)@ + json_string(s@),
{
    let hay = chars_vec(s);
    out.push('"');
    let ghost base = out@;
    let ghost mut done: Seq<char> = Seq::<char>::empty();
    let mut i: usize = 0;
    while i < hay.len()
        invariant
            i <= hay@.len(),
            out@ == base + done,
            escaped_from(hay@, 0) == done + escaped_from(hay@, i as int),
        decreases hay@.len() - i,
    {
        let c = hay[i];
        let u = c as u32;
        if c == '"' {
            out.push('\\');
            out.push('"');
        } else if c == '\\' {
            out.push('\\');
            out.push('\\');
        } else if c == '\u{8}' {
            out.push('\\');
            out.push('b');
        } else if c == '\t' {
            out.push('\\');
            out.push('t');
        } else if c == '\n' {
            out.push('\\');
            out.push('n');
        } else if c == '\u{c}' {
            out.push('\\');
            out.push('f');
        } else if c == '\r' {
            out.push('\\');
            out.push('r');
        } else if u < 32 {
            out.push('\\');
            out.push('u');
            out.push('0');
            out.push('0');
            out.push(hex_digit_char(u / 16));
            out.push(hex_digit_char(u % 16));
        } else {
            out.push(c);
        }
        proof {
            done = done + escape_char(hay@[i as int]);
            assert(out@ =~= base + done);
            assert(escaped_from(hay@, 0) =~= done + escaped_from(hay@, i + 1));
        }
        i += 1;
    }
    out.push('"');
    proof {
        assert(out@ =~= old(out)@ + json_string(s@));
    }
}

/// `s` JSON-escaped and quoted, for safe embedding in the prompt.
pub fn json_escape(s: &str) -> (r: String)
    ensures
        r@ == json_string(s@),
{
    let mut out: Vec<char> = Vec::new();
    append_json_string(&mut out, s);
    string_from_chars(&out)
}

// ------------------------------------------------------------------
// Entity and signal JSON rendering
// ------------------------------------------------------------------

pub open spec fn json_opt_string(o: Option<Seq<char>>) -> Seq<char> {
    match o {
        Some(s) => json_string(s),
        None => "null"@,
    }
}

pub open spec fn json_opt_number(o: Option<Seq<char>>) -> Seq<char> {
    match o {
        Some(s) => s,
        None => "null"@,
    }
}

/// The entities record as a JSON object with all eight keys, missing
/// values written as `null`, monetary values as bare numbers.
pub open spec fn entities_json(em: EntitiesModel) -> Seq<char> {
    "{\"brand\":"@ + json_opt_string(em.brand) + ",\"verification_code\":"@ + json_opt_string(
        em.verification_code,
    ) + ",\"amount\":"@ + json_opt_number(em.amount) + ",\"balance\":"@ + json_opt_number(
        em.balance,
    ) + ",\"account_suffix\":"@ + json_opt_string(em.account_suffix) + ",\"time_text\":"@
        + json_opt_string(em.time_text) + ",\"url\":"@ + json_opt_string(em.url)
        + ",\"phone_in_text\":"@ + json_opt_string(em.phone_in_text) + "}"@
}

/// The signals record as a JSON object: present entries in the fixed
/// order brand, has_url, has_verification_code, has_amount, rule,
/// separated by commas.
pub open spec fn signals_json(gm: SignalsModel) -> Seq<char> {
    let p1 = match gm.brand {
        Some(b) => "\"brand\":"@ + json_string(b),
        None => Seq::<char>::empty(),
    };
    let any1 = gm.brand is Some;
    let p2 = if gm.has_url {
        (if any1 {
            ","@
        } else {
            Seq::<char>::empty()
        }) + "\"has_url\":true"@
    } else {
        Seq::<char>::empty()
    };
    let any2 = any1 || gm.has_url;
    let p3 = if gm.has_verification_code {
        (if any2 {
            ","@
        } else {
            Seq::<char>::empty()
        }) + "\"has_verification_code\":true"@
    } else {
        Seq::<char>::empty()
    };
    let any3 = any2 || gm.has_verification_code;
    let p4 = if gm.has_amount {
        (if any3 {
            ","@
        } else {
            Seq::<char>::empty()
        }) + "\"has_amount\":true"@
    } else {
        Seq::<char>::empty()
    };
    let any4 = any3 || gm.has_amount;
    let p5 = match gm.rule {
        Some(t) => (if any4 {
            ","@
        } else {
            Seq::<char>::empty()
        }) + "\"rule\":"@ + json_string(spec_rule_tag_text(t)),
        None => Seq::<char>::empty(),
    };
    "{"@ + p1 + p2 + p3 + p4 + p5 + "}"@
}

/// Appends a JSON string or `null`.
fn append_opt_string_json(out: &mut Vec<char>, o: &Option<String>)
    ensures
        final(out)@ == old(out)@ + json_opt_string(crate::schema::opt_view(*o)),
{
    match o {
        Some(s) => append_json_string(out, s.as_str()),
        None => append_lit(out, "null"),
    }
}

/// Appends a bare number or `null`.
fn append_opt_number_json(out: &mut Vec<char>, o: &Option<String>)
    ensures
        final(out)@ == old(out)@ + json_opt_number(crate::schema::opt_view(*o)),
{
    match o {
        Some(s) => append_lit(out, s.as_str()),
        None => append_lit(out, "null"),
    }
}

/// Appends the JSON rendering of the entities record.
pub(crate) fn append_entities_json(out: &mut Vec<char>, e: &crate::schema::Entities)
    ensures
        final(out)@ == old(out)@ + entities_json(entities_model(*e)),
{
    let ghost base = out@;
    let ghost em = entities_model(*e);
    append_lit(out, "{\"brand\":");
    let ghost mut acc: Seq<char> = "{\"brand\":"@;
    append_opt_string_json(out, &e.brand);
    proof {
        crate::text::lemma_concat_reassoc(base, acc, json_opt_string(em.brand));
        acc = acc + json_opt_string(em.brand);
    }
    append_lit(out, ",\"verification_code\":");
    proof {
        crate::text::lemma_concat_reassoc(base, acc, ",\"verification_code\":"@);
        acc = acc + ",\"verification_code\":"@;
    }
    append_opt_string_json(out, &e.verification_code);
    proof {
        crate::text::lemma_concat_reassoc(base, acc, json_opt_string(em.verification_code));
        acc = acc + json_opt_string(em.verification_code);
    }
    append_lit(out, ",\"amount\":");
    proof {
        crate::text::lemma_concat_reassoc(base, acc, ",\"amount\":"@);
        acc = acc + ",\"amount\":"@;
    }
    append_opt_number_json(out, &e.amount);
    proof {
        crate::text::lemma_concat_reassoc(base, acc, json_opt_number(em.amount));
        acc = acc + json_opt_number(em.amount);
    }
    append_lit(out, ",\"balance\":");
    proof {
        crate::text::lemma_concat_reassoc(base, acc, ",\"balance\":"@);
        acc = acc + ",\"balance\":"@;
    }
    append_opt_number_json(out, &e.balance);
    proof {
        crate::text::lemma_concat_reassoc(base, acc, json_opt_number(em.balance));
        acc = acc + json_opt_number(em.balance);
    }
    append_lit(out, ",\"account_suffix\":");
    proof {
        crate::text::lemma_concat_reassoc(base, acc, ",\"account_suffix\":"@);
        acc = acc + ",\"account_suffix\":"@;
    }
    append_opt_string_json(out, &e.account_suffix);
    proof {
        crate::text::lemma_concat_reassoc(base, acc, json_opt_string(em.account_suffix));
        acc = acc + json_opt_string(em.account_suffix);
    }
    append_lit(out, ",\"time_text\":");
    proof {
        crate::text::lemma_concat_reassoc(base, acc, ",\"time_text\":"@);
        acc = acc + ",\"time_text\":"@;
    }
    append_opt_string_json(out, &e.time_text);
    proof {
        crate::text::lemma_concat_reassoc(base, acc, json_opt_string(em.time_text));
        acc = acc + json_opt_string(em.time_text);
    }
    append_lit(out, ",\"url\":");
    proof {
        crate::text::lemma_concat_reassoc(base, acc, ",\"url\":"@);
        acc = acc + ",\"url\":"@;
    }
    append_opt_string_json(out, &e.url);
    proof {
        crate::text::lemma_concat_reassoc(base, acc, json_opt_string(em.url));
        acc = acc + json_opt_string(em.url);
    }
    append_lit(out, ",\"phone_in_text\":");
    proof {
        crate::text::lemma_concat_reassoc(base, acc, ",\"phone_in_text\":"@);
        acc = acc + ",\"phone_in_text\":"@;
    }
    append_opt_string_json(out, &e.phone_in_text);
    proof {
        crate::text::lemma_concat_reassoc(base, acc, json_opt_string(em.phone_in_text));
        acc = acc + json_opt_string(em.phone_in_text);
    }
    append_lit(out, "}");
    proof {
        crate::text::lemma_concat_reassoc(base, acc, "}"@);
        acc = acc + "}"@;
        assert(out@ == base + entities_json(em));
    }
}

/// Appends the JSON rendering of the signals record.
pub(crate) fn append_signals_json(out: &mut Vec<char>, g: &crate::schema::Signals)
    ensures
        final(out)@ == old(out)@ + signals_json(signals_model(*g)),
{
    let ghost base = out@;
    let ghost gm = signals_model(*g);
    append_lit(out, "{");
    let ghost mut acc: Seq<char> = "{"@;
    let mut any = false;
    match &g.brand {
        Some(b) => {
            let mut sec: Vec<char> = Vec::new();
            append_lit(&mut sec, "\"brand\":");
            append_json_string(&mut sec, b.as_str());
            proof {
                crate::text::lemma_concat_reassoc(base, acc, sec@);
                assert(sec@ == "\"brand\":"@ + json_string(b@));
                acc = acc + sec@;
            }
            out.append(&mut sec);
            any = true;
        },
        None => {
            proof {
                assert(acc + Seq::<char>::empty() =~= acc);
            }
        },
    }
    proof {
        acc = "{"@ + (match gm.brand {
            Some(b) => "\"brand\":"@ + json_string(b),
            None => Seq::<char>::empty(),
        });
        assert(out@ == base + acc);
    }
    let ghost any1 = gm.brand is Some;
    if g.has_url {
        let mut sec: Vec<char> = Vec::new();
        if any {
            append_lit(&mut sec, ",");
        }
        append_lit(&mut sec, "\"has_url\":true");
        proof {
            if any {
                assert(sec@ == ","@ + "\"has_url\":true"@);
            } else {
                assert(sec@ =~= Seq::<char>::empty() + "\"has_url\":true"@);
            }
            crate::text::lemma_concat_reassoc(base, acc, sec@);
            acc = acc + sec@;
        }
        out.append(&mut sec);
        any = true;
    } else {
        proof {
            assert(acc + Seq::<char>::empty() =~= acc);
            acc = acc + Seq::<char>::empty();
        }
    }
    let ghost any2 = any1 || gm.has_url;
    if g.has_verification_code {
        let mut sec: Vec<char> = Vec::new();
        if any {
            append_lit(&mut sec, ",");
        }
        append_lit(&mut sec, "\"has_verification_code\":true");
        proof {
            if any {
                assert(sec@ == ","@ + "\"has_verification_code\":true"@);
            } else {
                assert(sec@ =~= Seq::<char>::empty() + "\"has_verification_code\":true"@);
            }
            crate::text::lemma_concat_reassoc(base, acc, sec@);
            acc = acc + sec@;
        }
        out.append(&mut sec);
        any = true;
    } else {
        proof {
            assert(acc + Seq::<char>::empty() =~= acc);
            acc = acc + Seq::<char>::empty();
        }
    }
    let ghost any3 = any2 || gm.has_verification_code;
    if g.has_amount {
        let mut sec: Vec<char> = Vec::new();
        if any {
            append_lit(&mut sec, ",");
        }
        append_lit(&mut sec, "\"has_amount\":true");
        proof {
            if any {
                assert(sec@ == ","@ + "\"has_amount\":true"@);
            } else {
                assert(sec@ =~= Seq::<char>::empty() + "\"has_amount\":true"@);
            }
            crate::text::lemma_concat_reassoc(base, acc, sec@);
            acc = acc + sec@;
        }
        out.append(&mut sec);
        any = true;
    } else {
        proof {
            assert(acc + Seq::<char>::empty() =~= acc);
            acc = acc + Seq::<char>::empty();
        }
    }
    let ghost any4 = any3 || gm.has_amount;
    match g.rule {
        Some(t) => {
            let mut sec: Vec<char> = Vec::new();
            if any {
                append_lit(&mut sec, ",");
            }
            append_lit(&mut sec, "\"rule\":");
            let tag = crate::schema::rule_tag_text(t);
            append_json_string(&mut sec, tag.as_str());
            proof {
                if any {
                    assert(sec@ =~= (","@ + "\"rule\":"@) + json_string(spec_rule_tag_text(t)));
                } else {
                    assert(sec@ =~= (Seq::<char>::empty() + "\"rule\":"@) + json_string(
                        spec_rule_tag_text(t),
                    ));
                }
                crate::text::lemma_concat_reassoc(base, acc, sec@);
                acc = acc + sec@;
            }
            out.append(&mut sec);
        },
        None => {
            proof {
                assert(acc + Seq::<char>::empty() =~= acc);
                acc = acc + Seq::<char>::empty();
            }
        },
    }
    append_lit(out, "}");
    proof {
        crate::text::lemma_concat_reassoc(base, acc, "}"@);
        acc = acc + "}"@;
        assert(out@ == base + signals_json(gm));
    }
}

// ------------------------------------------------------------------
// The prompt
// ------------------------------------------------------------------

/// The instruction template up to the content placeholder.
pub open spec fn spec_prompt_head() -> Seq<char> {
    "你是“短信智标官”的离线分类与抽取模型。\n你必须严格输出 JSON（只输出一个 JSON 对象，禁止输出其他任何字符）。\n\n任务：对短信 content 做两层标签与实体抽取补全。\n\n约束：\n- industry 只能取以下枚举之一：金融、通用、政务、渠道、互联网、其他\n- type 只能取以下枚举之一：验证码、交易提醒、账单催缴、保险续保、物流取件、会员账号变更、政务通知、风险提示、营销推广、其他\n- entities 必须包含字段：brand, verification_code, amount, balance, account_suffix, time_text, url, phone_in_text；缺失填 null\n- confidence 为 0~1 的小数\n- reasons 为字符串数组（简短、可解释）\n- needs_review 为 true/false\n- rules_version 固定为 rules_v1\n- schema_version 固定为 schema_v1\n- model_version 你可以填 \"llama\"（实际版本由应用覆盖）\n\n输入：\ncontent: "@
}

/// The instruction template after the signals placeholder: the output
/// schema example.
pub open spec fn spec_prompt_tail() -> Seq<char> {
    "\n\n输出 JSON schema（示例结构，不要照抄示例值）：\n{\n  \"industry\": \"其他\",\n  \"type\": \"其他\",\n  \"entities\": {\n    \"brand\": null,\n    \"verification_code\": null,\n    \"amount\": null,\n    \"balance\": null,\n    \"account_suffix\": null,\n    \"time_text\": null,\n    \"url\": null,\n    \"phone_in_text\": null\n  },\n  \"confidence\": 0.5,\n  \"needs_review\": true,\n  \"reasons\": [\"...\"],\n  \"signals\": {},\n  \"rules_version\": \"rules_v1\",\n  \"model_version\": \"llama\",\n  \"schema_version\": \"schema_v1\"\n}\n"@
}

/// The prompt text for a payload: the fixed instruction template with
/// the escaped content and the rendered entities and signals.
pub open spec fn spec_build_prompt(
    content: Seq<char>,
    em: EntitiesModel,
    gm: SignalsModel,
) -> Seq<char> {
    spec_prompt_head() + json_string(content) + "\nrule_entities: "@ + entities_json(em)
        + "\nrule_signals: "@ + signals_json(gm) + spec_prompt_tail()
}

/// Builds the strict JSON-only instruction for one payload.
#[verifier::rlimit(50)]
pub fn build_prompt(payload: &ClassifyPayload) -> (r: String)
    ensures
        r@ == spec_build_prompt(
            payload.content@,
            entities_model(payload.entities),
            signals_model(payload.signals),
        ),
{
    let mut out: Vec<char> = Vec::new();
    append_lit(
        &mut out,
        "你是“短信智标官”的离线分类与抽取模型。\n你必须严格输出 JSON（只输出一个 JSON 对象，禁止输出其他任何字符）。\n\n任务：对短信 content 做两层标签与实体抽取补全。\n\n约束：\n- industry 只能取以下枚举之一：金融、通用、政务、渠道、互联网、其他\n- type 只能取以下枚举之一：验证码、交易提醒、账单催缴、保险续保、物流取件、会员账号变更、政务通知、风险提示、营销推广、其他\n- entities 必须包含字段：brand, verification_code, amount, balance, account_suffix, time_text, url, phone_in_text；缺失填 null\n- confidence 为 0~1 的小数\n- reasons 为字符串数组（简短、可解释）\n- needs_review 为 true/false\n- rules_version 固定为 rules_v1\n- schema_version 固定为 schema_v1\n- model_version 你可以填 \"llama\"（实际版本由应用覆盖）\n\n输入：\ncontent: ",
    );
    append_json_string(&mut out, payload.content.as_str());
    append_lit(&mut out, "\nrule_entities: ");
    append_entities_json(&mut out, &payload.entities);
    append_lit(&mut out, "\nrule_signals: ");
    append_signals_json(&mut out, &payload.signals);
    append_lit(
        &mut out,
        "\n\n输出 JSON schema（示例结构，不要照抄示例值）：\n{\n  \"industry\": \"其他\",\n  \"type\": \"其他\",\n  \"entities\": {\n    \"brand\": null,\n    \"verification_code\": null,\n    \"amount\": null,\n    \"balance\": null,\n    \"account_suffix\": null,\n    \"time_text\": null,\n    \"url\": null,\n    \"phone_in_text\": null\n  },\n  \"confidence\": 0.5,\n  \"needs_review\": true,\n  \"reasons\": [\"...\"],\n  \"signals\": {},\n  \"rules_version\": \"rules_v1\",\n  \"model_version\": \"llama\",\n  \"schema_version\": \"schema_v1\"\n}\n",
    );
    proof {
        assert(out@ =~= spec_build_prompt(
            payload.content@,
            entities_model(payload.entities),
            signals_model(payload.signals),
        ));
    }
    string_from_chars(&out)
}

// ------------------------------------------------------------------
// JSON recovery
// ------------------------------------------------------------------

/// The first `{` of `s` at or after `i`.
pub open spec fn first_brace_from(s: Seq<char>, i: int) -> Option<int>
    decreases s.len() - i,
{
    if i < 0 || i >= s.len() {
        None
    } else if s[i] == '{' {
        Some(i)
    } else {
        first_brace_from(s, i + 1)
    }
}

/// Where the brace depth returns to zero, scanning from `i` at `depth`.
pub open spec fn balance_end(s: Seq<char>, i: int, depth: int) -> Option<int>
    decreases s.len() - i,
{
    if i < 0 || i >= s.len() {
        None
    } else if s[i] == '{' {
        balance_end(s, i + 1, depth + 1)
    } else if s[i] == '}' {
        if depth == 1 {
            Some(i)
        } else {
            balance_end(s, i + 1, depth - 1)
        }
    } else {
        balance_end(s, i + 1, depth)
    }
}

/// The first balanced `{...}` of `s`: from the first `{` through the
/// brace that closes it; `None` when no `{` occurs or it never closes.
pub open spec fn spec_extract_json(s: Seq<char>) -> Option<Seq<char>> {
    match first_brace_from(s, 0) {
        Some(st) => match balance_end(s, st, 0) {
            Some(e) => Some(s.subrange(st, e + 1)),
            None => None,
        },
        None => None,
    }
}

/// Recovers the first balanced JSON object from noisy text.
#[verifier::loop_isolation(false)]
pub fn extract_json(text: &str) -> (r: Option<String>)
    ensures
        crate::schema::opt_view(r) == spec_extract_json(text@),
{
    let hay = chars_vec(text);
    let n = hay.len();
    let mut st: usize = 0;
    while st < n && hay[st] != '{'
        invariant
            st <= n,
            first_brace_from(hay@, 0) == first_brace_from(hay@, st as int),
        decreases n - st,
    {
        st += 1;
    }
    if st >= n {
        return None;
    }
    let mut i: usize = st;
    let mut depth: usize = 0;
    while i < n
        invariant
            st <= i <= n,
            n == hay@.len(),
            hay@[st as int] == '{',
            depth <= i,
            i == st ==> depth == 0,
            i > st ==> depth >= 1,
            balance_end(hay@, st as int, 0) == balance_end(hay@, i as int, depth as int),
        decreases n - i,
    {
        let c = hay[i];
        if c == '{' {
            depth += 1;
        } else if c == '}' {
            if depth == 1 {
                return Some(String::from_str(text.substring_char(st, i + 1)));
            }
            depth -= 1;
        }
        i += 1;
    }
    None
}

} // verus!
