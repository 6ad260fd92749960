use rswc::catalog::{assemble_page, read_catalog, CatalogPage, ItemParts, WorkshopItem};

fn item(name: &str, id: &str) -> WorkshopItem {
    WorkshopItem { name: name.to_string(), id: id.to_string() }
}

fn parts(titles: &[&str], id: Option<&str>) -> ItemParts {
    ItemParts {
        titles: titles.iter().map(|s| s.to_string()).collect(),
        id: id.map(|s| s.to_string()),
    }
}

const PAGE: &str = r#"<!DOCTYPE html>
<html>
<head><title>Steam Workshop::Team Fortress 2</title></head>
<body>
<div class="apphub_HomeHeaderContent">Team Fortress 2</div>
<div class="workshopItem">
  <a class="ugc" data-publishedfileid="111" href="first">
    <div class="workshopItemTitle">First Item</div>
  </a>
</div>
<div class="workshopItem">
  <a class="ugc" data-publishedfileid="222" href="second"></a>
  <a class="ugc" data-publishedfileid="999" href="shadow"></a>
  <div class="workshopItemTitle">Second</div><div class="workshopItemTitle"> Part</div>
</div>
</body>
</html>"#;

#[test]
fn reads_title_and_items_of_a_page() {
    assert_eq!(
        read_catalog(PAGE),
        Some(CatalogPage::Found {
            title: "Steam Workshop::Team Fortress 2".to_string(),
            items: vec![item("First Item", "111"), item("Second Part", "222")],
        })
    );
}

#[test]
fn page_without_header_says_that_the_application_is_missing() {
    let page = "<html><head><title>Steam Community :: Error</title></head><body>none</body></html>";
    assert_eq!(read_catalog(page), Some(CatalogPage::Missing));
    assert_eq!(read_catalog(""), Some(CatalogPage::Missing));
    assert_eq!(read_catalog("not html at all"), Some(CatalogPage::Missing));
}

#[test]
fn page_without_items_lists_none() {
    let page = "<html><head><title>Game</title></head>\
                <body><div class=\"apphub_HomeHeaderContent\"></div></body></html>";
    assert_eq!(
        read_catalog(page),
        Some(CatalogPage::Found { title: "Game".to_string(), items: vec![] })
    );
}

#[test]
fn page_without_title_is_no_catalog_page() {
    let page = "<html><body><div class=\"apphub_HomeHeaderContent\"></div></body></html>";
    assert_eq!(read_catalog(page), None);
}

#[test]
fn item_without_id_makes_the_page_unreadable() {
    let page = "<html><head><title>Game</title></head><body>\
                <div class=\"apphub_HomeHeaderContent\"></div>\
                <div class=\"workshopItem\"><div class=\"workshopItemTitle\">A</div></div>\
                </body></html>";
    assert_eq!(read_catalog(page), None);
    let page = "<html><head><title>Game</title></head><body>\
                <div class=\"apphub_HomeHeaderContent\"></div>\
                <div class=\"workshopItem\"><a class=\"ugc\"></a></div>\
                </body></html>";
    assert_eq!(read_catalog(page), None);
}

#[test]
fn assembles_a_page_from_its_parts() {
    assert_eq!(assemble_page(0, None, vec![]), Some(CatalogPage::Missing));
    assert_eq!(
        assemble_page(0, Some("T".to_string()), vec![parts(&["a"], None)]),
        Some(CatalogPage::Missing)
    );
    assert_eq!(assemble_page(1, None, vec![]), None);
    assert_eq!(
        assemble_page(2, Some("T".to_string()), vec![]),
        Some(CatalogPage::Found { title: "T".to_string(), items: vec![] })
    );
    assert_eq!(
        assemble_page(
            1,
            Some("T".to_string()),
            vec![parts(&["a", "b"], Some("1")), parts(&[], Some("x"))]
        ),
        Some(CatalogPage::Found {
            title: "T".to_string(),
            items: vec![item("ab", "1"), item("", "x")],
        })
    );
    assert_eq!(
        assemble_page(
            1,
            Some("T".to_string()),
            vec![parts(&["a"], Some("1")), parts(&["b"], None)]
        ),
        None
    );
}
