use hyper::Uri;
use layered_config::alb_health_check::{
    AlbHealthCheckFuture, AlbHealthCheckLayer, Either, Route,
};

#[test]
fn health_checks_are_routed_to_the_handler() {
    let layer = AlbHealthCheckLayer::new("/ping", |name: &str| name.len());
    let service = layer.layer("inner");
    assert_eq!(service.route(&Uri::from_static("/ping")), Route::HealthCheck);
    assert_eq!(service.route(&Uri::from_static("/ping#fragment")), Route::HealthCheck);
    assert_eq!(service.route(&Uri::from_static("/pong")), Route::Inner);
    assert_eq!(service.route(&Uri::from_static("/ping/")), Route::Inner);
    assert_eq!(service.route(&Uri::from_static("/ping?x=1")), Route::Inner);
    assert_eq!(service.route(&Uri::from_static("http://example.com/ping")), Route::Inner);
    assert_eq!((service.health_check_handler())("four"), 4);
    assert_eq!(service.into_inner(), "inner");
}

#[test]
fn absolute_health_check_uris_compare_without_case_of_host() {
    let layer = AlbHealthCheckLayer::new("http://Example.com/ping", ());
    let service = layer.layer(());
    assert_eq!(service.route(&Uri::from_static("http://example.com/ping")), Route::HealthCheck);
    assert_eq!(service.route(&Uri::from_static("/ping")), Route::Inner);
}

#[test]
fn the_future_remembers_who_answers() {
    let handled: AlbHealthCheckFuture<u8, &str> = AlbHealthCheckFuture::handler_future(7);
    assert!(matches!(handled.into_inner(), Either::Left { value: 7 }));
    let forwarded: AlbHealthCheckFuture<u8, &str> = AlbHealthCheckFuture::service_future("later");
    assert!(matches!(forwarded.into_inner(), Either::Right { value: "later" }));
}
