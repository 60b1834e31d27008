//! The four article templates, one for each note style.
//!
//! Every note field that may hold several lines reaches a template as escaped HTML and is
//! inserted with `{{{ }}}`; short fields (names, numbers, titles, reading data) are inserted with
//! `{{ }}`, which the template engine escapes itself.
use vstd::prelude::*;

verus! {

/// The `reading` style: the general book-note layout.
pub const READING_TEMPLATE: &'static str = "<section style=\"margin:0;padding:0 8px;color:#333;font-size:15px;line-height:1.8;letter-spacing:0.5px;\">\n<h2 style=\"margin:24px 0 8px;font-size:22px;font-weight:bold;color:#1f2d3d;text-align:center;\">《{{book_name}}》</h2>\n<p style=\"margin:0 0 20px;color:#8c8c8c;font-size:14px;text-align:center;\">作者：{{author}}</p>\n{{#if book_meta}}<section style=\"margin:0 0 24px;padding:12px 16px;background:#f7f8fa;border-radius:6px;font-size:14px;\">\n<p style=\"margin:0 0 6px;font-weight:bold;\">阅读参考 · {{book_meta.platform}}</p>\n{{#if book_meta.rating}}<p style=\"margin:0;\">评分：{{book_meta.rating}}{{#if book_meta.rating_count}}（{{book_meta.rating_count}}人评分）{{/if}}</p>{{/if}}\n{{#if book_meta.want_to_read}}<p style=\"margin:0;\">想读：{{book_meta.want_to_read}}</p>{{/if}}\n{{#if book_meta.reading_count}}<p style=\"margin:0;\">在读：{{book_meta.reading_count}}</p>{{/if}}\n{{#if book_meta.url}}<p style=\"margin:0;color:#8c8c8c;\">{{book_meta.url}}</p>{{/if}}\n</section>{{/if}}\n<h3 style=\"margin:28px 0 10px;font-size:18px;color:#1f2d3d;border-left:4px solid #07c160;padding-left:10px;\">为什么读这本书</h3>\n<p style=\"margin:0 0 16px;\">{{{why_read_html}}}</p>\n<h3 style=\"margin:28px 0 10px;font-size:18px;color:#1f2d3d;border-left:4px solid #07c160;padding-left:10px;\">一句话总结</h3>\n<p style=\"margin:0 0 16px;\">{{{summary_html}}}</p>\n<h3 style=\"margin:28px 0 10px;font-size:18px;color:#1f2d3d;border-left:4px solid #07c160;padding-left:10px;\">核心观点</h3>\n{{#each core_points}}<section style=\"margin:0 0 18px;\">\n<h4 style=\"margin:0 0 6px;font-size:16px;color:#07c160;\">{{number}} · {{title}}</h4>\n<p style=\"margin:0 0 8px;\">{{{content_html}}}</p>\n{{#if extension_html}}<p style=\"margin:0 0 8px;padding:8px 12px;background:#f6fbf8;border-radius:4px;\"><strong>延伸思考：</strong>{{{extension_html}}}</p>{{/if}}\n{{#if example_html}}<p style=\"margin:0 0 8px;color:#595959;\"><strong>例子：</strong>{{{example_html}}}</p>{{/if}}\n</section>{{/each}}\n{{#if example_html}}<h3 style=\"margin:28px 0 10px;font-size:18px;color:#1f2d3d;border-left:4px solid #07c160;padding-left:10px;\">书中案例</h3>\n<p style=\"margin:0 0 16px;\">{{{example_html}}}</p>{{/if}}\n<h3 style=\"margin:28px 0 10px;font-size:18px;color:#1f2d3d;border-left:4px solid #07c160;padding-left:10px;\">我的思考</h3>\n<p style=\"margin:0 0 16px;\">{{{thoughts_html}}}</p>\n<h3 style=\"margin:28px 0 10px;font-size:18px;color:#1f2d3d;border-left:4px solid #07c160;padding-left:10px;\">适合谁读</h3>\n<p style=\"margin:0 0 16px;\">{{{target_reader_html}}}</p>\n<h3 style=\"margin:28px 0 10px;font-size:18px;color:#1f2d3d;border-left:4px solid #07c160;padding-left:10px;\">行动清单</h3>\n{{#each actions}}<p style=\"margin:0 0 8px;\"><span style=\"color:#07c160;font-weight:bold;\">✓</span> {{{text_html}}}</p>\n{{/each}}</section>\n";

/// The `business` style: problem, insights, thoughts and actions.
pub const BUSINESS_TEMPLATE: &'static str = "<section style=\"margin:0;padding:0 8px;color:#2b2b2b;font-size:15px;line-height:1.8;\">\n<h2 style=\"margin:24px 0 8px;font-size:22px;font-weight:bold;color:#0b3d91;text-align:center;\">《{{book_name}}》</h2>\n<p style=\"margin:0 0 20px;color:#8c8c8c;font-size:14px;text-align:center;\">作者：{{author}}</p>\n<h3 style=\"margin:28px 0 10px;font-size:18px;color:#0b3d91;\">要解决的问题</h3>\n<p style=\"margin:0 0 16px;\">{{{problem_html}}}</p>\n<h3 style=\"margin:28px 0 10px;font-size:18px;color:#0b3d91;\">核心摘要</h3>\n<p style=\"margin:0 0 16px;\">{{{summary_html}}}</p>\n<h3 style=\"margin:28px 0 10px;font-size:18px;color:#0b3d91;\">关键洞察</h3>\n{{#each insights}}<section style=\"margin:0 0 18px;\">\n<h4 style=\"margin:0 0 6px;font-size:16px;\">{{number}} · {{title}}</h4>\n<p style=\"margin:0 0 8px;\">{{{content_html}}}</p>\n{{#if extension_html}}<p style=\"margin:0 0 8px;\"><strong>延伸思考：</strong>{{{extension_html}}}</p>{{/if}}\n{{#if case_html}}<p style=\"margin:0 0 8px;color:#595959;\"><strong>案例：</strong>{{{case_html}}}</p>{{/if}}\n</section>{{/each}}\n<h3 style=\"margin:28px 0 10px;font-size:18px;color:#0b3d91;\">商业思考</h3>\n<p style=\"margin:0 0 16px;\">{{{business_thoughts_html}}}</p>\n<h3 style=\"margin:28px 0 10px;font-size:18px;color:#0b3d91;\">适合谁读</h3>\n<p style=\"margin:0 0 16px;\">{{{target_reader_html}}}</p>\n<h3 style=\"margin:28px 0 10px;font-size:18px;color:#0b3d91;\">行动清单</h3>\n{{#each actions}}<p style=\"margin:0 0 8px;\">✓ {{{text_html}}}</p>\n{{/each}}</section>\n";

/// The `tech` style: architecture, concepts with definitions and practice, actions.
pub const TECH_TEMPLATE: &'static str = "<section style=\"margin:0;padding:0 8px;color:#24292f;font-size:15px;line-height:1.8;\">\n<h2 style=\"margin:24px 0 8px;font-size:22px;font-weight:bold;text-align:center;\">《{{book_name}}》</h2>\n<p style=\"margin:0 0 20px;color:#8c8c8c;font-size:14px;text-align:center;\">作者：{{author}}</p>\n<h3 style=\"margin:28px 0 10px;font-size:18px;\">为什么读这本书</h3>\n<p style=\"margin:0 0 16px;\">{{{why_read_html}}}</p>\n<h3 style=\"margin:28px 0 10px;font-size:18px;\">整体架构</h3>\n<p style=\"margin:0 0 16px;\">{{{architecture_html}}}</p>\n<h3 style=\"margin:28px 0 10px;font-size:18px;\">核心概念</h3>\n{{#each concepts}}<section style=\"margin:0 0 18px;padding:10px 12px;background:#f6f8fa;border-radius:6px;\">\n<h4 style=\"margin:0 0 6px;font-size:16px;\">{{number}} · {{title}}</h4>\n<p style=\"margin:0 0 8px;\"><strong>定义：</strong>{{{definition_html}}}</p>\n<p style=\"margin:0 0 8px;\"><strong>实践：</strong>{{{practice_html}}}</p>\n{{#if case_html}}<p style=\"margin:0;\"><strong>案例：</strong>{{{case_html}}}</p>{{/if}}\n</section>{{/each}}\n<h3 style=\"margin:28px 0 10px;font-size:18px;\">我的思考</h3>\n<p style=\"margin:0 0 16px;\">{{{thoughts_html}}}</p>\n<h3 style=\"margin:28px 0 10px;font-size:18px;\">适合谁读</h3>\n<p style=\"margin:0 0 16px;\">{{{target_reader_html}}}</p>\n<h3 style=\"margin:28px 0 10px;font-size:18px;\">行动清单</h3>\n{{#each actions}}<p style=\"margin:0 0 8px;\">✓ {{{text_html}}}</p>\n{{/each}}</section>\n";

/// The `invest` style: thesis, principles, risks and actions.
pub const INVEST_TEMPLATE: &'static str = "<section style=\"margin:0;padding:0 8px;color:#333;font-size:15px;line-height:1.8;\">\n<h2 style=\"margin:24px 0 8px;font-size:22px;font-weight:bold;color:#8b4513;text-align:center;\">《{{book_name}}》</h2>\n<p style=\"margin:0 0 20px;color:#8c8c8c;font-size:14px;text-align:center;\">作者：{{author}}</p>\n<h3 style=\"margin:28px 0 10px;font-size:18px;color:#8b4513;\">投资主线</h3>\n<p style=\"margin:0 0 16px;\">{{{investment_thesis_html}}}</p>\n<h3 style=\"margin:28px 0 10px;font-size:18px;color:#8b4513;\">核心原则</h3>\n{{#each principles}}<section style=\"margin:0 0 18px;\">\n<h4 style=\"margin:0 0 6px;font-size:16px;\">{{number}} · {{title}}</h4>\n<p style=\"margin:0 0 8px;\">{{{content_html}}}</p>\n{{#if extension_html}}<p style=\"margin:0 0 8px;\"><strong>延伸思考：</strong>{{{extension_html}}}</p>{{/if}}\n</section>{{/each}}\n{{#if risk_html}}<h3 style=\"margin:28px 0 10px;font-size:18px;color:#8b4513;\">风险提示</h3>\n<p style=\"margin:0 0 16px;\">{{{risk_html}}}</p>{{/if}}\n<h3 style=\"margin:28px 0 10px;font-size:18px;color:#8b4513;\">我的思考</h3>\n<p style=\"margin:0 0 16px;\">{{{thoughts_html}}}</p>\n<h3 style=\"margin:28px 0 10px;font-size:18px;color:#8b4513;\">适合谁读</h3>\n<p style=\"margin:0 0 16px;\">{{{target_reader_html}}}</p>\n<h3 style=\"margin:28px 0 10px;font-size:18px;color:#8b4513;\">行动清单</h3>\n{{#each actions}}<p style=\"margin:0 0 8px;\">✓ {{{text_html}}}</p>\n{{/each}}</section>\n";

} // verus!
