//! Rendering of fresh listings into the blocks of one chat message.
//!
//! A message opens with an announcement, then shows at most
//! `MAX_LISTINGS` listings, each as a divider, a title section with the
//! listing's image, a section of four fields, and a closing divider.
use crate::listing::Bukken;
use crate::text::{replace_all, replaced};
use vstd::prelude::*;

verus! {

/// How many listings one message shows; the rest are left out of it.
pub const MAX_LISTINGS: usize = 10;

/// The most blocks that the chat platform takes in one message.
pub const MAX_BLOCKS: usize = 50;

/// A block of the chat platform's message layout.
pub enum Block {
    /// Plain text with emoji shortcodes rendered.
    Announcement { text: String },
    /// A horizontal rule.
    Divider,
    /// A markdown section with an image beside it.
    Title { text: String, image_url: String, alt_text: String },
    /// A section of markdown fields.
    Fields { fields: Vec<String> },
}

/// What a block shows, with its texts as character sequences.
pub enum BlockModel {
    Announcement(Seq<char>),
    Divider,
    Title(Seq<char>, Seq<char>, Seq<char>),
    Fields(Seq<Seq<char>>),
}

impl View for Block {
    type V = BlockModel;

    open spec fn view(&self) -> BlockModel {
        match self {
            Block::Announcement { text } => BlockModel::Announcement(text@),
            Block::Divider => BlockModel::Divider,
            Block::Title { text, image_url, alt_text } => BlockModel::Title(
                text@,
                image_url@,
                alt_text@,
            ),
            Block::Fields { fields } => BlockModel::Fields(fields@.map_values(|f: String| f@)),
        }
    }
}

/// The models of a sequence of blocks.
pub open spec fn block_models(blocks: Seq<Block>) -> Seq<BlockModel> {
    blocks.map_values(|b: Block| b@)
}

/// The text of the announcement that opens every message.
pub open spec fn announcement_text() -> Seq<char> {
    "新しい特別募集住宅を見つけたカリ:eyes:"@
}

/// The title of a listing: its name linked to its page, then its access
/// notes with each `<br>` turned into a line break.
pub open spec fn title_text(b: Bukken) -> Seq<char> {
    "*<https://www.ur-net.go.jp"@ + b.bukken_link@ + "|"@ + b.bukken_name@ + ">*\n"@
        + replaced(b.access@, "<br>"@, "\n"@)
}

/// The four fields of a listing: normal rent, discounted rent, layout and
/// floor area (with the square-metre entity shown as its symbol), and kind.
pub open spec fn field_texts(b: Bukken) -> Seq<Seq<char>> {
    seq![
        "*通常家賃(共益費):*\n"@ + b.rent_normal@ + b.commonfee_normal@,
        "*割引後家賃(共益費):*\n"@ + b.rent_waribiki@ + b.commonfee_waribiki@,
        "*間取り/床面積:*\n"@ + b.room_type@ + " / "@ + replaced(
            b.floorspace@,
            "&#13217;"@,
            "㎡"@,
        ),
        "*住宅種類:*\n"@ + b.tokubetsu_kbn_text@,
    ]
}

/// The four blocks that show one listing.
pub open spec fn listing_blocks(b: Bukken) -> Seq<BlockModel> {
    seq![
        BlockModel::Divider,
        BlockModel::Title(title_text(b), b.image@, b.bukken_name@),
        BlockModel::Fields(field_texts(b)),
        BlockModel::Divider,
    ]
}

/// How many listings a message shows out of `n`.
pub open spec fn shown_count(n: nat) -> nat {
    if n < MAX_LISTINGS {
        n
    } else {
        MAX_LISTINGS as nat
    }
}

/// The blocks of the message that announces `fresh`.
pub open spec fn notification_blocks(fresh: Seq<Bukken>) -> Seq<BlockModel> {
    seq![BlockModel::Announcement(announcement_text())] + fresh.take(
        shown_count(fresh.len()) as int,
    ).flat_map(|b: Bukken| listing_blocks(b))
}

proof fn lemma_listings_blocks_len(s: Seq<Bukken>)
    ensures
        s.flat_map(|b: Bukken| listing_blocks(b)).len() == 4 * s.len(),
    decreases s.len(),
{
    if s.len() > 0 {
        let t = s.drop_last();
        lemma_listings_blocks_len(t);
        t.lemma_flat_map_push(|b: Bukken| listing_blocks(b), s.last());
        assert(t.push(s.last()) =~= s);
    }
}

/// A message shows at most `MAX_LISTINGS` listings, in four blocks each
/// after the announcement, so it stays within the platform's block ceiling
/// however many listings are fresh.
pub proof fn lemma_notification_bounded(fresh: Seq<Bukken>)
    ensures
        notification_blocks(fresh).len() == 1 + 4 * shown_count(fresh.len()),
        notification_blocks(fresh).len() <= MAX_BLOCKS,
{
    lemma_listings_blocks_len(fresh.take(shown_count(fresh.len()) as int));
}

/// Relies on `itertools::concat`: the parts are joined end to end in order,
/// and no parts give an empty vector.
#[verifier::external_body]
fn concat_parts<T>(parts: Vec<Vec<T>>) -> (r: Vec<T>)
    ensures
        r@ == parts@.map_values(|p: Vec<T>| p@).flatten(),
{
    itertools::concat(parts)
}

fn title_block(b: &Bukken) -> (r: Block)
    ensures
        r@ == BlockModel::Title(title_text(*b), b.image@, b.bukken_name@),
{
    proof {
        reveal_strlit("<br>");
    }
    let access = replace_all(b.access.as_str(), "<br>", "\n");
    let mut text = String::from_str("*<https://www.ur-net.go.jp");
    text.append(b.bukken_link.as_str());
    text.append("|");
    text.append(b.bukken_name.as_str());
    text.append(">*\n");
    text.append(access.as_str());
    Block::Title { text, image_url: b.image.clone(), alt_text: b.bukken_name.clone() }
}

fn fields_block(b: &Bukken) -> (r: Block)
    ensures
        r@ == BlockModel::Fields(field_texts(*b)),
{
    proof {
        reveal_strlit("&#13217;");
    }
    let mut normal = String::from_str("*通常家賃(共益費):*\n");
    normal.append(b.rent_normal.as_str());
    normal.append(b.commonfee_normal.as_str());
    let mut discounted = String::from_str("*割引後家賃(共益費):*\n");
    discounted.append(b.rent_waribiki.as_str());
    discounted.append(b.commonfee_waribiki.as_str());
    let area = replace_all(b.floorspace.as_str(), "&#13217;", "㎡");
    let mut layout = String::from_str("*間取り/床面積:*\n");
    layout.append(b.room_type.as_str());
    layout.append(" / ");
    layout.append(area.as_str());
    let mut kind = String::from_str("*住宅種類:*\n");
    kind.append(b.tokubetsu_kbn_text.as_str());
    let fields = vec![normal, discounted, layout, kind];
    let r = Block::Fields { fields };
    assert(r@ == BlockModel::Fields(field_texts(*b))) by {
        assert(fields@.map_values(|f: String| f@) =~= field_texts(*b));
    }
    r
}

/// The blocks of the message that announces `bukkens`, or `None` when
/// there is nothing to announce. Only the first `MAX_LISTINGS` listings are
/// shown.
pub fn bukkens_to_blocks(bukkens: Vec<&Bukken>) -> (r: Option<Vec<Block>>)
    ensures
        r is None <==> bukkens@.len() == 0,
        r matches Some(blocks) ==> block_models(blocks@) == notification_blocks(
            bukkens@.map_values(|b: &Bukken| *b),
        ),
{
    if bukkens.len() == 0 {
        return None;
    }
    let ghost listings = bukkens@.map_values(|b: &Bukken| *b);
    let ghost render = |b: Bukken| listing_blocks(b);
    let shown = if bukkens.len() < MAX_LISTINGS {
        bukkens.len()
    } else {
        MAX_LISTINGS
    };
    let mut bukken_blocks: Vec<Block> = Vec::new();
    let mut i: usize = 0;
    while i < shown
        invariant
            shown <= bukkens@.len(),
            i <= shown,
            listings == bukkens@.map_values(|b: &Bukken| *b),
            render == (|b: Bukken| listing_blocks(b)),
            block_models(bukken_blocks@) =~= listings.take(i as int).flat_map(render),
        decreases shown - i,
    {
        let bukken = bukkens[i];
        let ghost before = bukken_blocks@;
        bukken_blocks.push(Block::Divider);
        bukken_blocks.push(title_block(bukken));
        bukken_blocks.push(fields_block(bukken));
        bukken_blocks.push(Block::Divider);
        proof {
            listings.lemma_flat_map_take_append(render, i as int);
            assert(listings[i as int] == *bukken);
            assert(block_models(bukken_blocks@) =~= block_models(before) + listing_blocks(
                *bukken,
            ));
        }
        i += 1;
    }
    let yadokari_blocks = vec![Block::Announcement { text: String::from_str("新しい特別募集住宅を見つけたカリ:eyes:") }];
    let ghost head = yadokari_blocks@;
    let ghost body = bukken_blocks@;
    let parts = vec![yadokari_blocks, bukken_blocks];
    let blocks = concat_parts(parts);
    proof {
        let views = parts@.map_values(|p: Vec<Block>| p@);
        assert(views =~= seq![head, body]);
        reveal_with_fuel(Seq::flatten, 3);
        assert(views.drop_first() =~= seq![body]);
        assert(views.drop_first().drop_first() =~= Seq::<Seq<Block>>::empty());
        assert(blocks@ =~= head + body);
        assert(block_models(blocks@) =~= notification_blocks(listings));
    }
    Some(blocks)
}

} // verus!
