//! Pagination: lazy page-by-page driving, cursors, limits and fetch counts.

use osauth::stream::{PageRequest, PaginatedResource, Paginator};

#[derive(Clone, Debug, PartialEq)]
struct Server {
    id: String,
}

impl PaginatedResource for Server {
    fn key(&self) -> String {
        self.id.clone()
    }
}

fn servers(n: usize) -> Vec<Server> {
    (0..n).map(|i| Server { id: format!("s{}", i) }).collect()
}

/// Serve pages of `page_size` from `items`, as the identity service would:
/// the page after marker `m` starts right past the item with id `m`.
fn serve(items: &[Server], req: &PageRequest) -> Vec<Server> {
    let start = match &req.marker {
        Some(m) => items.iter().position(|s| &s.id == m).map(|p| p + 1).unwrap_or(items.len()),
        None => 0,
    };
    items[start..items.len().min(start + req.limit)].to_vec()
}

/// Drive the paginator against `items`; count the fetches made.
fn drive(items: &[Server], mut pager: Paginator) -> (Vec<Server>, usize) {
    let mut out = Vec::new();
    let mut fetches = 0usize;
    while let Some(req) = pager.next_request() {
        fetches += 1;
        let page = serve(items, &req);
        out.extend(pager.accept_page(page));
    }
    (out, fetches)
}

#[test]
fn test_no_limit_yields_all_in_order() {
    let items = servers(5);
    let (out, fetches) = drive(&items, Paginator::new(2, None, None));
    assert_eq!(out, items);
    assert_eq!(fetches, 3);
}

#[test]
fn test_full_final_page_costs_one_probe() {
    let items = servers(4);
    let (out, fetches) = drive(&items, Paginator::new(2, None, None));
    assert_eq!(out, items);
    assert_eq!(fetches, 3);
}

#[test]
fn test_limit_truncates_and_stops_fetching() {
    let items = servers(10);
    let (out, fetches) = drive(&items, Paginator::new(4, Some(6), None));
    assert_eq!(out, items[..6].to_vec());
    assert_eq!(fetches, 2);
}

#[test]
fn test_limit_zero_never_fetches() {
    let items = servers(3);
    let (out, fetches) = drive(&items, Paginator::new(2, Some(0), None));
    assert!(out.is_empty());
    assert_eq!(fetches, 0);
}

#[test]
fn test_empty_listing_takes_one_fetch() {
    let items = servers(0);
    let (out, fetches) = drive(&items, Paginator::new(3, None, None));
    assert!(out.is_empty());
    assert_eq!(fetches, 1);
}

#[test]
fn test_starting_identifier_resumes() {
    let items = servers(6);
    let start = Some("s2".to_string());
    let (out, fetches) = drive(&items, Paginator::new(2, None, start));
    assert_eq!(out, items[3..].to_vec());
    assert_eq!(fetches, 2);
}

#[test]
fn test_cursor_follows_last_emitted_item() {
    let items = servers(5);
    let mut pager = Paginator::new(2, None, None);
    let req = pager.next_request().unwrap();
    assert_eq!(req.marker, None);
    assert_eq!(req.limit, 2);
    let emitted = pager.accept_page(serve(&items, &req));
    assert_eq!(emitted.len(), 2);
    let req = pager.next_request().unwrap();
    assert_eq!(req.marker, Some("s1".to_string()));
}

#[test]
fn test_exhausted_after_short_page() {
    let items = servers(3);
    let mut pager = Paginator::new(2, None, None);
    let req = pager.next_request().unwrap();
    pager.accept_page(serve(&items, &req));
    let req = pager.next_request().unwrap();
    let last = pager.accept_page(serve(&items, &req));
    assert_eq!(last.len(), 1);
    assert!(pager.next_request().is_none());
}
