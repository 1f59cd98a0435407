use http_file_server::engine::buffer_size_for;
use http_file_server::headers::{build_headers, file_name_of, u64_to_string};

#[test]
fn decimal_rendering_is_exact() {
    assert_eq!(u64_to_string(0), "0");
    assert_eq!(u64_to_string(7), "7");
    assert_eq!(u64_to_string(10), "10");
    assert_eq!(u64_to_string(2_097_152), "2097152");
    assert_eq!(u64_to_string(u64::MAX), "18446744073709551615");
}

#[test]
fn file_name_is_the_last_path_component() {
    assert_eq!(file_name_of("/srv/report.pdf"), "report.pdf");
    assert_eq!(file_name_of("report.pdf"), "report.pdf");
    assert_eq!(file_name_of("/srv/a/b/c.tar.gz"), "c.tar.gz");
    // A path without a usable name falls back to a generic one.
    assert_eq!(file_name_of("/"), "download");
    assert_eq!(file_name_of(""), "download");
}

#[test]
fn headers_for_a_pdf_download() {
    let h = build_headers("/srv/report.pdf", 2 * 1024 * 1024);
    assert_eq!(h.content_type, "application/pdf");
    assert_eq!(h.content_length, "2097152");
    assert_eq!(h.content_disposition, "attachment; filename=\"report.pdf\"");
}

#[test]
fn unknown_extension_falls_back_to_octet_stream() {
    let h = build_headers("/srv/data.zzzz", 5);
    assert_eq!(h.content_type, "application/octet-stream");
    assert_eq!(h.content_length, "5");
    assert_eq!(h.content_disposition, "attachment; filename=\"data.zzzz\"");
}

#[test]
fn known_types_come_from_the_extension_table() {
    assert_eq!(build_headers("/srv/page.html", 1).content_type, "text/html");
    assert_eq!(build_headers("/srv/notes.txt", 1).content_type, "text/plain");
}

#[test]
fn buffer_size_scales_with_file_size() {
    assert_eq!(buffer_size_for(0), 2 * 1024 * 1024);
    assert_eq!(buffer_size_for(4 * 1024 * 1024), 2 * 1024 * 1024);
    assert_eq!(buffer_size_for(4 * 1024 * 1024 + 1), 256 * 1024);
    assert_eq!(buffer_size_for(16 * 1024 * 1024), 256 * 1024);
    assert_eq!(buffer_size_for(16 * 1024 * 1024 + 1), 512 * 1024);
    assert_eq!(buffer_size_for(67_108_928), 512 * 1024);
    assert_eq!(buffer_size_for(67_108_929), 1024 * 1024);
    assert_eq!(buffer_size_for(1024 * 1024 * 1024), 1024 * 1024);
    assert_eq!(buffer_size_for(1024 * 1024 * 1024 + 1), 2 * 1024 * 1024);
}
