//! Display helpers of `grokrs models`: bold text, price-tier colours and
//! price cells.

use vstd::prelude::*;
use crate::text::{
    dec_int, join, owned, pad_right, push_i64, push_joined, push_line, push_pad_right, texts,
};

verus! {

/// The `grokrs models` subcommands.
#[derive(Debug, Clone, PartialEq, Eq)]
pub enum ModelsCommand {
    /// List models: language by default, or image or video.
    List { model_type: String, json: bool },
    /// Detailed information for one model.
    Info { model_id: String, json: bool },
    /// Pricing comparison sorted by cost, cheapest first.
    Pricing { json: bool },
}

pub const BOLD_ON: &'static str = "\x1b[1m";
pub const RESET: &'static str = "\x1b[0m";
pub const GREEN: &'static str = "\x1b[32m";
pub const YELLOW: &'static str = "\x1b[33m";
pub const RED: &'static str = "\x1b[31m";

/// `text` in bold when colour is on.
pub fn bold(text: &str, use_color: bool) -> (s: String)
    ensures
        s@ == if use_color { BOLD_ON@ + text@ + RESET@ } else { text@ },
{
    if use_color {
        let mut s = owned(BOLD_ON);
        s.append(text);
        s.append(RESET);
        s
    } else {
        owned(text)
    }
}

/// The colour of a price tier: green below 300, yellow up to 1000, red above.
pub open spec fn price_tier_color(price: int) -> Seq<char> {
    if price < 300 { GREEN@ } else if price <= 1000 { YELLOW@ } else { RED@ }
}

/// `text` coloured by the tier of `price` when colour is on.
pub fn price_color(price: i64, text: &str, use_color: bool) -> (s: String)
    ensures
        s@ == if use_color { price_tier_color(price as int) + text@ + RESET@ } else { text@ },
{
    if !use_color {
        return owned(text);
    }
    let mut s = if price < 300 {
        owned(GREEN)
    } else if price <= 1000 {
        owned(YELLOW)
    } else {
        owned(RED)
    };
    s.append(text);
    s.append(RESET);
    s
}

/// A price cell: the number, or `-` when the price is unknown.
pub fn fmt_price(price: Option<i64>) -> (s: String)
    ensures
        s@ == match price { Some(p) => dec_int(p as int), None => "-"@ },
{
    match price {
        Some(p) => {
            let mut s = String::new();
            push_i64(&mut s, p);
            s
        },
        None => owned("-"),
    }
}

/// The cell of a price, coloured by its tier when colour is on.
pub open spec fn price_cell(price: Option<i64>, use_color: bool) -> Seq<char> {
    match price {
        Some(p) => if use_color { price_tier_color(p as int) + dec_int(p as int) + RESET@ } else { dec_int(p as int) },
        None => "-"@,
    }
}

/// Format the cell of a price.
pub fn price_cell_text(price: Option<i64>, use_color: bool) -> (s: String)
    ensures
        s@ == price_cell(price, use_color),
{
    let text = fmt_price(price);
    match price {
        Some(p) => price_color(p, text.as_str(), use_color),
        None => text,
    }
}

/// The modalities of a model: `-` when none are listed, else its input
/// modalities and output modalities joined by commas, as `in->out`.
pub open spec fn modalities(input: Seq<String>, output: Seq<String>) -> Seq<char> {
    if input.len() == 0 && output.len() == 0 {
        "-"@
    } else {
        join(texts(input), ","@) + "->"@ + join(texts(output), ","@)
    }
}

/// Format the modalities of a model.
pub fn modalities_text(input: &Vec<String>, output: &Vec<String>) -> (s: String)
    ensures
        s@ == modalities(input@, output@),
{
    if input.len() == 0 && output.len() == 0 {
        return owned("-");
    }
    let mut s = String::new();
    push_joined(&mut s, input, ",");
    s.append("->");
    push_joined(&mut s, output, ",");
    s
}

/// A table row: the cells, each padded to its width, separated by spaces.
pub open spec fn row_text(cells: Seq<String>, widths: Seq<usize>) -> Seq<char> {
    join(Seq::new(cells.len(), |i: int| pad_right(cells[i]@, widths[i] as int)), " "@)
}

/// Format a table row.
pub fn padded_row(cells: &Vec<String>, widths: &Vec<usize>) -> (s: String)
    requires
        widths@.len() == cells@.len(),
    ensures
        s@ == row_text(cells@, widths@),
{
    let ghost items = Seq::new(cells@.len(), |i: int| pad_right(cells@[i]@, widths@[i] as int));
    let n = cells.len();
    let mut s = String::new();
    let mut i: usize = 0;
    while i < n
        invariant
            n == cells@.len(),
            widths@.len() == n,
            i <= n,
            items == Seq::new(cells@.len(), |k: int| pad_right(cells@[k]@, widths@[k] as int)),
            s@ == join(items.take(i as int), " "@),
        decreases n - i,
    {
        if i > 0 {
            s.append(" ");
            proof {
                crate::text::lemma_join_step(items, " "@, i as int);
            }
        } else {
            assert(join(items.take(1), " "@) == items[0]);
            assert(join(items.take(0), " "@) =~= Seq::<char>::empty());
        }
        push_pad_right(&mut s, cells[i].as_str(), widths[i]);
        i = i + 1;
        assert(s@ =~= join(items.take(i as int), " "@));
    }
    assert(items.take(n as int) =~= items);
    s
}

/// A language model as the models commands show it.
#[derive(Debug, Clone)]
pub struct LanguageModel {
    pub id: String,
    pub owned_by: String,
    pub created: i64,
    pub aliases: Vec<String>,
    pub input_modalities: Vec<String>,
    pub output_modalities: Vec<String>,
    pub version: Option<String>,
    pub fingerprint: Option<String>,
    pub max_prompt_length: Option<i64>,
    pub prompt_text_token_price: Option<i64>,
    pub completion_text_token_price: Option<i64>,
    pub cached_prompt_text_token_price: Option<i64>,
    pub prompt_image_token_price: Option<i64>,
    pub search_price: Option<i64>,
    pub image_price: Option<i64>,
}

/// An image or video generation model: its price is per image or per
/// second.
#[derive(Debug, Clone)]
pub struct MediaModel {
    pub id: String,
    pub owned_by: String,
    pub created: i64,
    pub input_modalities: Vec<String>,
    pub output_modalities: Vec<String>,
    pub version: Option<String>,
    pub fingerprint: Option<String>,
    pub unit_price: Option<i64>,
}

/// `n` copies of `-`.
pub open spec fn dashes(n: nat) -> Seq<char> {
    Seq::new(n, |i: int| '-')
}

fn dash_line(n: usize) -> (s: String)
    ensures
        s@ == dashes(n as nat),
{
    let mut s = String::new();
    let mut k: usize = 0;
    while k < n
        invariant
            k <= n,
            s@ == dashes(k as nat),
        decreases n - k,
    {
        crate::text::push_char(&mut s, '-');
        k = k + 1;
        assert(s@ =~= dashes(k as nat));
    }
    s
}

/// The row of a language model in the list.
pub open spec fn language_row(m: LanguageModel, use_color: bool) -> Seq<char> {
    pad_right(if use_color { BOLD_ON@ + m.id@ + RESET@ } else { m.id@ }, 30) + " "@
        + pad_right(price_cell(m.prompt_text_token_price, use_color), 12) + " "@
        + pad_right(price_cell(m.completion_text_token_price, use_color), 12) + " "@
        + pad_right(price_cell(m.cached_prompt_text_token_price, use_color), 12) + " "@
        + pad_right(modalities(m.input_modalities@, m.output_modalities@), 25) + " "@
        + pad_right(match m.max_prompt_length { Some(l) => dec_int(l as int), None => "-"@ }, 15)
}

fn push_cell(out: &mut String, text: &str, width: usize, first: bool)
    ensures
        final(out)@ == old(out)@ + (if first { Seq::<char>::empty() } else { " "@ }) + pad_right(text@, width as int),
{
    if !first {
        out.append(" ");
    }
    push_pad_right(out, text, width);
}

fn language_row_text(m: &LanguageModel, use_color: bool) -> (s: String)
    ensures
        s@ == language_row(*m, use_color),
{
    let mut s = String::new();
    let id = bold(m.id.as_str(), use_color);
    push_cell(&mut s, id.as_str(), 30, true);
    let c = price_cell_text(m.prompt_text_token_price, use_color);
    push_cell(&mut s, c.as_str(), 12, false);
    let c = price_cell_text(m.completion_text_token_price, use_color);
    push_cell(&mut s, c.as_str(), 12, false);
    let c = price_cell_text(m.cached_prompt_text_token_price, use_color);
    push_cell(&mut s, c.as_str(), 12, false);
    let c = modalities_text(&m.input_modalities, &m.output_modalities);
    push_cell(&mut s, c.as_str(), 25, false);
    let c = fmt_price(m.max_prompt_length);
    push_cell(&mut s, c.as_str(), 15, false);
    assert(s@ =~= language_row(*m, use_color));
    s
}

/// The heading row of the language model list.
pub open spec fn language_header(use_color: bool) -> Seq<char> {
    pad_right(if use_color { BOLD_ON@ + "MODEL ID"@ + RESET@ } else { "MODEL ID"@ }, 30) + " "@
        + pad_right("PROMPT"@, 12) + " "@ + pad_right("COMPLETION"@, 12) + " "@
        + pad_right("CACHED"@, 12) + " "@ + pad_right("MODALITIES"@, 25) + " "@
        + pad_right("CONTEXT"@, 15)
}

/// The lines of `models list` for language models.
pub open spec fn spec_language_list(models: Seq<LanguageModel>, use_color: bool) -> Seq<Seq<char>> {
    if models.len() == 0 {
        seq!["No language models available."@]
    } else {
        seq![language_header(use_color), dashes(106)]
            + Seq::new(models.len(), |i: int| language_row(models[i], use_color))
            + seq!["\nPrices are in integer ticks (cents per 100M tokens)."@,
                "Total: "@ + crate::text::dec(models.len()) + " language models"@]
    }
}

/// The lines `models list` prints for language models.
pub fn language_list_lines(models: &Vec<LanguageModel>, use_color: bool) -> (r: Vec<String>)
    ensures
        texts(r@) == spec_language_list(models@, use_color),
{
    let mut lines: Vec<String> = Vec::new();
    let n = models.len();
    if n == 0 {
        push_line(&mut lines, owned("No language models available."));
        assert(texts(lines@) =~= spec_language_list(models@, use_color));
        return lines;
    }
    let mut h = String::new();
    let id = bold("MODEL ID", use_color);
    push_cell(&mut h, id.as_str(), 30, true);
    push_cell(&mut h, "PROMPT", 12, false);
    push_cell(&mut h, "COMPLETION", 12, false);
    push_cell(&mut h, "CACHED", 12, false);
    push_cell(&mut h, "MODALITIES", 25, false);
    push_cell(&mut h, "CONTEXT", 15, false);
    assert(h@ =~= language_header(use_color));
    push_line(&mut lines, h);
    push_line(&mut lines, dash_line(106));
    let ghost head = texts(lines@);
    let mut i: usize = 0;
    while i < n
        invariant
            n == models@.len(),
            i <= n,
            texts(lines@) == head + Seq::new(i as nat, |k: int| language_row(models@[k], use_color)),
        decreases n - i,
    {
        push_line(&mut lines, language_row_text(&models[i], use_color));
        i = i + 1;
        assert(texts(lines@) =~= head + Seq::new(i as nat, |k: int| language_row(models@[k], use_color)));
    }
    push_line(&mut lines, owned("\nPrices are in integer ticks (cents per 100M tokens)."));
    let mut t = owned("Total: ");
    crate::text::push_u64(&mut t, n as u64);
    t.append(" language models");
    push_line(&mut lines, t);
    assert(texts(lines@) =~= spec_language_list(models@, use_color));
    lines
}

/// The row of an image or video model in the list.
pub open spec fn media_row(m: MediaModel, use_color: bool) -> Seq<char> {
    pad_right(if use_color { BOLD_ON@ + m.id@ + RESET@ } else { m.id@ }, 30) + " "@
        + pad_right(price_cell(m.unit_price, use_color), 15) + " "@
        + pad_right(modalities(m.input_modalities@, m.output_modalities@), 25) + " "@
        + pad_right(m.owned_by@, 15)
}

/// The lines of `models list` for image (`video` false) or video models.
pub open spec fn spec_media_list(models: Seq<MediaModel>, video: bool, use_color: bool) -> Seq<Seq<char>> {
    let kind = if video { "video"@ } else { "image"@ };
    if models.len() == 0 {
        seq!["No "@ + kind + " generation models available."@]
    } else {
        seq![pad_right(if use_color { BOLD_ON@ + "MODEL ID"@ + RESET@ } else { "MODEL ID"@ }, 30) + " "@
            + pad_right(if video { "PER SECOND"@ } else { "PER IMAGE"@ }, 15) + " "@
            + pad_right("MODALITIES"@, 25) + " "@ + pad_right("OWNED BY"@, 15), dashes(85)]
            + Seq::new(models.len(), |i: int| media_row(models[i], use_color))
            + seq!["\nTotal: "@ + crate::text::dec(models.len()) + " "@ + kind + " generation models"@]
    }
}

fn media_row_text(m: &MediaModel, use_color: bool) -> (s: String)
    ensures
        s@ == media_row(*m, use_color),
{
    let mut s = String::new();
    let id = bold(m.id.as_str(), use_color);
    push_cell(&mut s, id.as_str(), 30, true);
    let c = price_cell_text(m.unit_price, use_color);
    push_cell(&mut s, c.as_str(), 15, false);
    let c = modalities_text(&m.input_modalities, &m.output_modalities);
    push_cell(&mut s, c.as_str(), 25, false);
    push_cell(&mut s, m.owned_by.as_str(), 15, false);
    assert(s@ =~= media_row(*m, use_color));
    s
}

/// The lines `models list` prints for image or video models.
pub fn media_list_lines(models: &Vec<MediaModel>, video: bool, use_color: bool) -> (r: Vec<String>)
    ensures
        texts(r@) == spec_media_list(models@, video, use_color),
{
    let kind = if video { "video" } else { "image" };
    let mut lines: Vec<String> = Vec::new();
    let n = models.len();
    if n == 0 {
        let mut m = owned("No ");
        m.append(kind);
        m.append(" generation models available.");
        push_line(&mut lines, m);
        assert(texts(lines@) =~= spec_media_list(models@, video, use_color));
        return lines;
    }
    let mut h = String::new();
    let id = bold("MODEL ID", use_color);
    push_cell(&mut h, id.as_str(), 30, true);
    push_cell(&mut h, if video { "PER SECOND" } else { "PER IMAGE" }, 15, false);
    push_cell(&mut h, "MODALITIES", 25, false);
    push_cell(&mut h, "OWNED BY", 15, false);
    push_line(&mut lines, h);
    push_line(&mut lines, dash_line(85));
    let ghost head = texts(lines@);
    let mut i: usize = 0;
    while i < n
        invariant
            n == models@.len(),
            i <= n,
            texts(lines@) == head + Seq::new(i as nat, |k: int| media_row(models@[k], use_color)),
        decreases n - i,
    {
        push_line(&mut lines, media_row_text(&models[i], use_color));
        i = i + 1;
        assert(texts(lines@) =~= head + Seq::new(i as nat, |k: int| media_row(models@[k], use_color)));
    }
    let mut t = owned("\nTotal: ");
    crate::text::push_u64(&mut t, n as u64);
    t.append(" ");
    t.append(kind);
    t.append(" generation models");
    push_line(&mut lines, t);
    assert(texts(lines@) =~= spec_media_list(models@, video, use_color));
    lines
}

/// The error for an unknown `--type`.
pub open spec fn unknown_type_message(t: Seq<char>) -> Seq<char> {
    "unknown model type: '"@ + t + "'\nValid values: language, image, video"@
}

/// Which listing `--type` asks for: 0 language, 1 image, 2 video.
pub fn model_list_kind(model_type: &str) -> (r: Result<u8, String>)
    ensures
        model_type@ == "language"@ ==> r == Ok::<u8, String>(0),
        model_type@ == "image"@ ==> r == Ok::<u8, String>(1),
        model_type@ == "video"@ ==> r == Ok::<u8, String>(2),
        !(model_type@ == "language"@ || model_type@ == "image"@ || model_type@ == "video"@)
            ==> (r matches Err(e) && e@ == unknown_type_message(model_type@)),
{
    proof {
        reveal_strlit("language");
        reveal_strlit("image");
        reveal_strlit("video");
        assert("language"@.len() == 8);
        assert("image"@.len() == 5);
        assert("video"@.len() == 5);
        assert("image"@[0] != "video"@[0]);
    }
    if crate::text::str_eq(model_type, "language") {
        Ok(0)
    } else if crate::text::str_eq(model_type, "image") {
        Ok(1)
    } else if crate::text::str_eq(model_type, "video") {
        Ok(2)
    } else {
        let mut e = owned("unknown model type: '");
        e.append(model_type);
        e.append("'\nValid values: language, image, video");
        Err(e)
    }
}

/// A labelled line of `models info`.
fn info_line(label: &str, value: &str) -> (s: String)
    ensures
        s@ == label@ + value@,
{
    let mut s = owned(label);
    s.append(value);
    s
}

/// A labelled list line, present when the list is not empty.
pub open spec fn list_line(label: Seq<char>, items: Seq<String>) -> Seq<Seq<char>> {
    if items.len() == 0 {
        Seq::empty()
    } else {
        seq![label + join(texts(items), ", "@)]
    }
}

/// A labelled line for a value that may be absent.
pub open spec fn opt_info_line(label: Seq<char>, v: Option<String>) -> Seq<Seq<char>> {
    match v {
        Some(x) => seq![label + x@],
        None => Seq::empty(),
    }
}

fn push_list_line(lines: &mut Vec<String>, label: &str, items: &Vec<String>)
    ensures
        texts(final(lines)@) == texts(old(lines)@) + list_line(label@, items@),
{
    if items.len() > 0 {
        let mut l = owned(label);
        push_joined(&mut l, items, ", ");
        push_line(lines, l);
        assert(texts(final(lines)@) =~= texts(old(lines)@) + list_line(label@, items@));
    } else {
        assert(texts(old(lines)@) + list_line(label@, items@) =~= texts(old(lines)@));
    }
}

fn push_opt_info(lines: &mut Vec<String>, label: &str, v: &Option<String>)
    ensures
        texts(final(lines)@) == texts(old(lines)@) + opt_info_line(label@, *v),
{
    match v {
        Some(x) => {
            push_line(lines, info_line(label, x.as_str()));
            assert(texts(final(lines)@) =~= texts(old(lines)@) + opt_info_line(label@, *v));
        },
        None => {
            assert(texts(old(lines)@) + opt_info_line(label@, *v) =~= texts(old(lines)@));
        },
    }
}

/// The heading lines and identity lines shared by every `models info`.
pub open spec fn info_head(title: Seq<char>, id: Seq<char>, owned_by: Seq<char>, created: i64, use_color: bool) -> Seq<Seq<char>> {
    seq![if use_color { BOLD_ON@ + title + RESET@ } else { title }, dashes(50),
        "ID:             "@ + (if use_color { BOLD_ON@ + id + RESET@ } else { id }),
        "Owned By:       "@ + owned_by, "Created:        "@ + dec_int(created as int)]
}

fn push_info_head(lines: &mut Vec<String>, title: &str, id: &str, owned_by: &str, created: i64, use_color: bool)
    ensures
        texts(final(lines)@) == texts(old(lines)@) + info_head(title@, id@, owned_by@, created, use_color),
{
    push_line(lines, bold(title, use_color));
    push_line(lines, dash_line(50));
    let b = bold(id, use_color);
    push_line(lines, info_line("ID:             ", b.as_str()));
    push_line(lines, info_line("Owned By:       ", owned_by));
    let mut c = owned("Created:        ");
    push_i64(&mut c, created);
    push_line(lines, c);
    assert(texts(final(lines)@) =~= texts(old(lines)@) + info_head(title@, id@, owned_by@, created, use_color));
}

/// A price line of the language model pricing block.
pub open spec fn pricing_line(label: Seq<char>, price: Option<i64>, use_color: bool) -> Seq<char> {
    "  "@ + pad_right(label, 20) + " "@ + price_cell(price, use_color)
}

fn pricing_line_text(label: &str, price: Option<i64>, use_color: bool) -> (s: String)
    ensures
        s@ == pricing_line(label@, price, use_color),
{
    let mut s = owned("  ");
    push_pad_right(&mut s, label, 20);
    s.append(" ");
    let c = price_cell_text(price, use_color);
    s.append(c.as_str());
    s
}

/// The lines of `models info` for a language model.
pub open spec fn spec_language_info(m: LanguageModel, use_color: bool) -> Seq<Seq<char>> {
    info_head("Language Model"@, m.id@, m.owned_by@, m.created, use_color)
        + list_line("Aliases:        "@, m.aliases@)
        + list_line("Input:          "@, m.input_modalities@)
        + list_line("Output:         "@, m.output_modalities@)
        + opt_info_line("Version:        "@, m.version)
        + opt_info_line("Fingerprint:    "@, m.fingerprint)
        + match m.max_prompt_length {
            Some(l) => seq!["Context Window: "@ + dec_int(l as int) + " tokens"@],
            None => Seq::empty(),
        }
        + pricing_block(m, use_color)
}

/// The pricing block of `models info` for a language model.
pub open spec fn pricing_block(m: LanguageModel, use_color: bool) -> Seq<Seq<char>> {
    seq![Seq::<char>::empty(),
        if use_color { BOLD_ON@ + "Pricing (cents per 100M tokens)"@ + RESET@ } else { "Pricing (cents per 100M tokens)"@ },
        dashes(50),
        pricing_line("Prompt Text"@, m.prompt_text_token_price, use_color),
        pricing_line("Completion Text"@, m.completion_text_token_price, use_color),
        pricing_line("Cached Prompt"@, m.cached_prompt_text_token_price, use_color),
        pricing_line("Prompt Image"@, m.prompt_image_token_price, use_color),
        pricing_line("Search"@, m.search_price, use_color),
        pricing_line("Image Gen"@, m.image_price, use_color)]
}

fn push_pricing_block(lines: &mut Vec<String>, m: &LanguageModel, use_color: bool)
    ensures
        texts(final(lines)@) == texts(old(lines)@) + pricing_block(*m, use_color),
{
    let ghost start = texts(lines@);
    push_line(lines, String::new());
    push_line(lines, bold("Pricing (cents per 100M tokens)", use_color));
    push_line(lines, dash_line(50));
    push_line(lines, pricing_line_text("Prompt Text", m.prompt_text_token_price, use_color));
    push_line(lines, pricing_line_text("Completion Text", m.completion_text_token_price, use_color));
    push_line(lines, pricing_line_text("Cached Prompt", m.cached_prompt_text_token_price, use_color));
    push_line(lines, pricing_line_text("Prompt Image", m.prompt_image_token_price, use_color));
    push_line(lines, pricing_line_text("Search", m.search_price, use_color));
    push_line(lines, pricing_line_text("Image Gen", m.image_price, use_color));
    assert(texts(lines@) =~= start + pricing_block(*m, use_color));
}

fn push_language_details(lines: &mut Vec<String>, m: &LanguageModel)
    ensures
        texts(final(lines)@) == texts(old(lines)@) + list_line("Aliases:        "@, m.aliases@)
            + list_line("Input:          "@, m.input_modalities@)
            + list_line("Output:         "@, m.output_modalities@)
            + opt_info_line("Version:        "@, m.version)
            + opt_info_line("Fingerprint:    "@, m.fingerprint)
            + match m.max_prompt_length {
                Some(l) => seq!["Context Window: "@ + dec_int(l as int) + " tokens"@],
                None => Seq::<Seq<char>>::empty(),
            },
{
    let ghost start = texts(lines@);
    push_list_line(lines, "Aliases:        ", &m.aliases);
    push_list_line(lines, "Input:          ", &m.input_modalities);
    push_list_line(lines, "Output:         ", &m.output_modalities);
    push_opt_info(lines, "Version:        ", &m.version);
    push_opt_info(lines, "Fingerprint:    ", &m.fingerprint);
    let ghost mid = texts(lines@);
    match m.max_prompt_length {
        Some(l) => {
            let mut c = owned("Context Window: ");
            push_i64(&mut c, l);
            c.append(" tokens");
            push_line(lines, c);
        },
        None => {},
    }
    assert(texts(lines@) =~= start + list_line("Aliases:        "@, m.aliases@)
        + list_line("Input:          "@, m.input_modalities@)
        + list_line("Output:         "@, m.output_modalities@)
        + opt_info_line("Version:        "@, m.version)
        + opt_info_line("Fingerprint:    "@, m.fingerprint)
        + match m.max_prompt_length {
            Some(l) => seq!["Context Window: "@ + dec_int(l as int) + " tokens"@],
            None => Seq::<Seq<char>>::empty(),
        });
}

/// The lines `models info` prints for a language model.
pub fn language_info_lines(m: &LanguageModel, use_color: bool) -> (r: Vec<String>)
    ensures
        texts(r@) == spec_language_info(*m, use_color),
{
    let mut lines: Vec<String> = Vec::new();
    push_info_head(&mut lines, "Language Model", m.id.as_str(), m.owned_by.as_str(), m.created, use_color);
    push_language_details(&mut lines, m);
    push_pricing_block(&mut lines, m, use_color);
    assert(texts(lines@) =~= spec_language_info(*m, use_color));
    lines
}

/// The lines of `models info` for an image (`video` false) or video model.
pub open spec fn spec_media_info(m: MediaModel, video: bool, use_color: bool) -> Seq<Seq<char>> {
    info_head(if video { "Video Generation Model"@ } else { "Image Generation Model"@ }, m.id@, m.owned_by@, m.created, use_color)
        + list_line("Input:          "@, m.input_modalities@)
        + list_line("Output:         "@, m.output_modalities@)
        + opt_info_line("Version:        "@, m.version)
        + opt_info_line("Fingerprint:    "@, m.fingerprint)
        + seq![(if video { "Per Second:     "@ } else { "Per Image:      "@ })
            + match m.unit_price { Some(p) => dec_int(p as int), None => "-"@ }]
}

/// The lines `models info` prints for an image or video model.
pub fn media_info_lines(m: &MediaModel, video: bool, use_color: bool) -> (r: Vec<String>)
    ensures
        texts(r@) == spec_media_info(*m, video, use_color),
{
    let mut lines: Vec<String> = Vec::new();
    let title = if video { "Video Generation Model" } else { "Image Generation Model" };
    push_info_head(&mut lines, title, m.id.as_str(), m.owned_by.as_str(), m.created, use_color);
    push_list_line(&mut lines, "Input:          ", &m.input_modalities);
    push_list_line(&mut lines, "Output:         ", &m.output_modalities);
    push_opt_info(&mut lines, "Version:        ", &m.version);
    push_opt_info(&mut lines, "Fingerprint:    ", &m.fingerprint);
    let price = fmt_price(m.unit_price);
    let label = if video { "Per Second:     " } else { "Per Image:      " };
    push_line(&mut lines, info_line(label, price.as_str()));
    assert(texts(lines@) =~= spec_media_info(*m, video, use_color));
    lines
}

/// The error when no model has the identifier.
pub open spec fn model_not_found_message(id: Seq<char>) -> Seq<char> {
    "model '"@ + id + "' not found.\nUse 'grokrs models list' to see available models."@
}

/// The error `models info` reports when no model has the identifier.
pub fn model_not_found(model_id: &str) -> (e: String)
    ensures
        e@ == model_not_found_message(model_id@),
{
    let mut e = owned("model '");
    e.append(model_id);
    e.append("' not found.\nUse 'grokrs models list' to see available models.");
    e
}

/// The sort key of the pricing table: the prompt price, with unpriced
/// models last.
pub open spec fn pricing_key_of(m: LanguageModel) -> i64 {
    match m.prompt_text_token_price {
        Some(p) => p,
        None => i64::MAX,
    }
}

/// Ordering by the pricing key orders by prompt price alone: of two priced
/// models the first is no dearer, and an unpriced model comes before a
/// priced one only when that price is the largest one (the key of an
/// unpriced model).
pub proof fn lemma_pricing_key_order(a: LanguageModel, b: LanguageModel)
    requires
        pricing_key_of(a) <= pricing_key_of(b),
    ensures
        match (a.prompt_text_token_price, b.prompt_text_token_price) {
            (Some(p), Some(q)) => p <= q,
            (None, Some(q)) => q == i64::MAX,
            _ => true,
        },
{
}

/// The sort key of the pricing table.
pub fn pricing_key(m: &LanguageModel) -> (k: i64)
    ensures
        k == pricing_key_of(*m),
{
    match m.prompt_text_token_price {
        Some(p) => p,
        None => i64::MAX,
    }
}

/// The models with sort key `k`, in order.
pub open spec fn with_key(ms: Seq<LanguageModel>, k: i64) -> Seq<LanguageModel> {
    ms.filter(|m: LanguageModel| pricing_key_of(m) == k)
}

/// Calls `slice::sort_by_key` with the pricing key. Its documentation
/// promises a sort by the key that keeps equal keys in their order, which
/// is what is stated: the keys ascend, and the models of each key keep
/// their order.
#[verifier::external_body]
fn sort_by_pricing(models: &mut Vec<LanguageModel>)
    ensures
        final(models)@.len() == old(models)@.len(),
        forall|i: int, j: int|
            0 <= i < j < final(models)@.len() ==> pricing_key_of(#[trigger] final(models)@[i]) <= pricing_key_of(#[trigger] final(models)@[j]),
        forall|k: i64| #[trigger] with_key(final(models)@, k) == with_key(old(models)@, k),
{
    models.sort_by_key(|m| pricing_key(m));
}

/// The row of a model in the pricing table.
pub open spec fn pricing_row(m: LanguageModel, use_color: bool) -> Seq<char> {
    pad_right(if use_color { BOLD_ON@ + m.id@ + RESET@ } else { m.id@ }, 30) + " "@
        + pad_right(price_cell(m.prompt_text_token_price, use_color), 12) + " "@
        + pad_right(price_cell(m.completion_text_token_price, use_color), 12) + " "@
        + pad_right(price_cell(m.cached_prompt_text_token_price, use_color), 12)
}

fn pricing_row_text(m: &LanguageModel, use_color: bool) -> (s: String)
    ensures
        s@ == pricing_row(*m, use_color),
{
    let mut s = String::new();
    let id = bold(m.id.as_str(), use_color);
    push_cell(&mut s, id.as_str(), 30, true);
    let c = price_cell_text(m.prompt_text_token_price, use_color);
    push_cell(&mut s, c.as_str(), 12, false);
    let c = price_cell_text(m.completion_text_token_price, use_color);
    push_cell(&mut s, c.as_str(), 12, false);
    let c = price_cell_text(m.cached_prompt_text_token_price, use_color);
    push_cell(&mut s, c.as_str(), 12, false);
    assert(s@ =~= pricing_row(*m, use_color));
    s
}

/// The lines of `models pricing` for models already in table order.
pub open spec fn spec_pricing_table(sorted: Seq<LanguageModel>, use_color: bool) -> Seq<Seq<char>> {
    seq![pad_right(if use_color { BOLD_ON@ + "MODEL ID"@ + RESET@ } else { "MODEL ID"@ }, 30) + " "@
        + pad_right("PROMPT"@, 12) + " "@ + pad_right("COMPLETION"@, 12) + " "@ + pad_right("CACHED"@, 12),
        dashes(66)]
        + Seq::new(sorted.len(), |i: int| pricing_row(sorted[i], use_color))
        + seq!["\nPrices are in integer ticks (cents per 100M tokens)."@,
            "Sorted: cheapest prompt price first."@,
            "Total: "@ + crate::text::dec(sorted.len()) + " language models"@]
}

/// The lines `models pricing` prints: the models sorted by prompt price
/// (unpriced last, ties in their listed order), or a note when there are
/// none. Returns the lines and the models in table order.
pub fn pricing_lines(models: Vec<LanguageModel>, use_color: bool) -> (r: (Vec<String>, Vec<LanguageModel>))
    ensures
        models@.len() == 0 ==> texts(r.0@) == seq!["No language models available."@],
        models@.len() > 0 ==> texts(r.0@) == spec_pricing_table(r.1@, use_color),
        r.1@.len() == models@.len(),
        forall|i: int, j: int| 0 <= i < j < r.1@.len() ==> pricing_key_of(#[trigger] r.1@[i]) <= pricing_key_of(#[trigger] r.1@[j]),
        forall|k: i64| #[trigger] with_key(r.1@, k) == with_key(models@, k),
        forall|i: int, j: int| #![trigger r.1@[i], r.1@[j]] 0 <= i < j < r.1@.len() ==> match (
            r.1@[i].prompt_text_token_price,
            r.1@[j].prompt_text_token_price,
        ) {
            (Some(p), Some(q)) => p <= q,
            (None, Some(q)) => q == i64::MAX,
            _ => true,
        },
{
    let mut lines: Vec<String> = Vec::new();
    let mut models = models;
    if models.len() == 0 {
        push_line(&mut lines, owned("No language models available."));
        assert(texts(lines@) =~= seq!["No language models available."@]);
        return (lines, models);
    }
    sort_by_pricing(&mut models);
    let mut h = String::new();
    let id = bold("MODEL ID", use_color);
    push_cell(&mut h, id.as_str(), 30, true);
    push_cell(&mut h, "PROMPT", 12, false);
    push_cell(&mut h, "COMPLETION", 12, false);
    push_cell(&mut h, "CACHED", 12, false);
    push_line(&mut lines, h);
    push_line(&mut lines, dash_line(66));
    let ghost head = texts(lines@);
    let n = models.len();
    let mut i: usize = 0;
    while i < n
        invariant
            n == models@.len(),
            i <= n,
            texts(lines@) == head + Seq::new(i as nat, |k: int| pricing_row(models@[k], use_color)),
        decreases n - i,
    {
        push_line(&mut lines, pricing_row_text(&models[i], use_color));
        i = i + 1;
        assert(texts(lines@) =~= head + Seq::new(i as nat, |k: int| pricing_row(models@[k], use_color)));
    }
    push_line(&mut lines, owned("\nPrices are in integer ticks (cents per 100M tokens)."));
    push_line(&mut lines, owned("Sorted: cheapest prompt price first."));
    let mut t = owned("Total: ");
    crate::text::push_u64(&mut t, n as u64);
    t.append(" language models");
    push_line(&mut lines, t);
    assert(texts(lines@) =~= spec_pricing_table(models@, use_color));
    assert forall|a: int, b: int| #![trigger models@[a], models@[b]] 0 <= a < b < models@.len() implies match (
        models@[a].prompt_text_token_price,
        models@[b].prompt_text_token_price,
    ) {
        (Some(p), Some(q)) => p <= q,
        (None, Some(q)) => q == i64::MAX,
        _ => true,
    } by {
        lemma_pricing_key_order(models@[a], models@[b]);
    }
    (lines, models)
}

} // verus!
