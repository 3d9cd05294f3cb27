use lawsearch::fragment::{chunk_from_row, law_name_of_source_file, LawChunk};
use lawsearch::retrieve::{fetch_limit, search_law_logic, VectorHit};

fn row(id: &str, category: &str, region: &str) -> LawChunk {
    chunk_from_row(
        id.to_string(),
        format!("content of {}", id),
        format!("law {}", id),
        category.to_string(),
        region.to_string(),
        "2021-01-01".to_string(),
        "".to_string(),
        "".to_string(),
        "第一条".to_string(),
    )
}

fn hit(id: &str, distance_milli: u32) -> VectorHit {
    VectorHit { id: id.to_string(), distance_milli }
}

fn result_ids(r: &Vec<LawChunk>) -> Vec<String> {
    r.iter().map(|c| c.id.clone()).collect()
}

#[test]
fn never_returns_more_than_top_k() {
    let hits = vec![hit("a", 100), hit("b", 200), hit("c", 300), hit("d", 400)];
    let rows = vec![row("a", "法律", ""), row("b", "法律", ""), row("c", "法律", ""), row("d", "法律", "")];
    let r = search_law_logic(&hits, &rows, &None, 2);
    assert_eq!(result_ids(&r), vec!["a".to_string(), "b".to_string()]);
    let r = search_law_logic(&hits, &rows, &None, 10);
    assert_eq!(r.len(), 4);
    let r = search_law_logic(&hits, &rows, &None, 0);
    assert_eq!(r.len(), 0);
}

#[test]
fn ascending_distance_order_is_preserved() {
    let hits = vec![hit("a", 100), hit("b", 250), hit("c", 900)];
    let rows = vec![row("c", "法律", ""), row("a", "法律", ""), row("b", "法律", "")];
    let r = search_law_logic(&hits, &rows, &None, 3);
    let dists: Vec<u32> = r.iter().map(|c| c.distance_milli).collect();
    assert_eq!(dists, vec![100, 250, 900]);
    assert_eq!(result_ids(&r), vec!["a".to_string(), "b".to_string(), "c".to_string()]);
}

#[test]
fn local_regulation_needs_matching_region() {
    let hits = vec![hit("nat", 100), hit("loc", 200)];
    let rows = vec![row("nat", "法律", ""), row("loc", "地方法规", "北京市")];

    // No region filter: the local-regulation fragment is dropped.
    let r = search_law_logic(&hits, &rows, &None, 10);
    assert_eq!(result_ids(&r), vec!["nat".to_string()]);

    // Matching region substring: it is kept.
    let r = search_law_logic(&hits, &rows, &Some("北京".to_string()), 10);
    assert_eq!(result_ids(&r), vec!["nat".to_string(), "loc".to_string()]);

    // Non-matching region: dropped again.
    let r = search_law_logic(&hits, &rows, &Some("上海".to_string()), 10);
    assert_eq!(result_ids(&r), vec!["nat".to_string()]);
}

#[test]
fn national_law_ignores_region_filter() {
    let hits = vec![hit("nat", 100)];
    let rows = vec![row("nat", "司法解释", "全国")];
    let r = search_law_logic(&hits, &rows, &Some("北京".to_string()), 10);
    assert_eq!(result_ids(&r), vec!["nat".to_string()]);
}

#[test]
fn hits_without_rows_are_dropped() {
    let hits = vec![hit("gone", 100), hit("a", 200)];
    let rows = vec![row("a", "法律", "")];
    let r = search_law_logic(&hits, &rows, &None, 10);
    assert_eq!(result_ids(&r), vec!["a".to_string()]);
}

#[test]
fn distances_are_stamped_from_hits() {
    let hits = vec![hit("a", 777)];
    let rows = vec![row("a", "法律", "")];
    assert_eq!(rows[0].distance_milli, 0);
    let r = search_law_logic(&hits, &rows, &None, 10);
    assert_eq!(r[0].distance_milli, 777);
    assert_eq!(r[0].content, "content of a");
    assert_eq!(r[0].source_file, "law a.txt");
}

#[test]
fn empty_hits_give_empty_result() {
    let hits: Vec<VectorHit> = vec![];
    let rows = vec![row("a", "法律", "")];
    let r = search_law_logic(&hits, &rows, &None, 10);
    assert_eq!(r.len(), 0);
}

#[test]
fn retrieval_is_idempotent() {
    let hits = vec![hit("a", 100), hit("b", 200), hit("loc", 300)];
    let rows = vec![row("a", "法律", ""), row("b", "行政法规", ""), row("loc", "地方法规", "广东省")];
    let filter = Some("广东".to_string());
    let first = search_law_logic(&hits, &rows, &filter, 2);
    let second = search_law_logic(&hits, &rows, &filter, 2);
    assert_eq!(result_ids(&first), result_ids(&second));
}

#[test]
fn over_fetch_is_three_times_top_k() {
    assert_eq!(fetch_limit(50), 150);
    assert_eq!(fetch_limit(0), 0);
}

#[test]
fn source_file_round_trip() {
    assert_eq!(law_name_of_source_file("中华人民共和国民法典.txt"), "中华人民共和国民法典");
    assert_eq!(law_name_of_source_file("no suffix"), "no suffix");
}
