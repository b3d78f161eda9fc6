use npc_imager::resolve::Attempt;
use npc_imager::scrape::scrape_attempt;
use npc_imager::scrape::transform_wiki_link_to_img_source;

#[test]
fn transform_strips_prefix_and_escapes() {
    assert_eq!(
        transform_wiki_link_to_img_source("/w/File:Zulrah_(serpentine).png"),
        "https://oldschool.runescape.wiki/images/Zulrah_%28serpentine%29.png"
    );
}

#[test]
fn transform_without_prefix_only_escapes() {
    assert_eq!(
        transform_wiki_link_to_img_source("Cow.png"),
        "https://oldschool.runescape.wiki/images/Cow.png"
    );
}

#[test]
fn transform_handles_ampersand() {
    assert_eq!(
        transform_wiki_link_to_img_source("/w/File:Tea & cake.png"),
        "https://oldschool.runescape.wiki/images/Tea%20%26%20cake.png"
    );
}

#[test]
fn scrape_finds_first_image_marker() {
    let html = "<html><body><table class=\"infobox\">\
        <tr><td><a class=\"image\" href=\"/w/File:Zulrah_(serpentine).png\">\
        <img src=\"/thumb.png\"></a></td></tr>\
        <tr><td><a class=\"image\" href=\"/w/File:Other.png\"></a></td></tr>\
        </table></body></html>";
    assert_eq!(
        scrape_attempt(html),
        Attempt::Found(
            "https://oldschool.runescape.wiki/images/Zulrah_%28serpentine%29.png".to_string()
        )
    );
}

#[test]
fn scrape_without_marker_is_not_found() {
    let html = "<html><body><p>No infobox here.</p></body></html>";
    assert_eq!(scrape_attempt(html), Attempt::NotFound);
}

#[test]
fn scrape_marker_without_href_is_not_found() {
    let html = "<html><body><a class=\"image\">bare</a></body></html>";
    assert_eq!(scrape_attempt(html), Attempt::NotFound);
}

#[test]
fn scrape_empty_body_is_not_found() {
    assert_eq!(scrape_attempt(""), Attempt::NotFound);
}
